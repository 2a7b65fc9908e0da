//! The mirror table of the download client: every origin and every mirror
//! URL ends in a slash, so that a mirror stands in for a whole prefix.
use vstd::prelude::*;
use vstd::string::*;

verus! {

/// A parsed URL, held as its serialization and its path.
pub struct ParsedUrl {
    pub serialization: String,
    pub path: String,
}

/// What parsing `text` as an absolute URL gives: the serialization and the
/// path of the parsed URL, or nothing where `text` is no URL.
pub uninterp spec fn url_parse_of(text: Seq<char>) -> Option<(Seq<char>, Seq<char>)>;

/// Relies on `url::Url::parse`; the serialization (`Url::as_str`) and the
/// path (`Url::path`) of the parsed URL are read off its result.
#[verifier::external_body]
fn parse_url(text: &str) -> (r: Option<ParsedUrl>)
    ensures
        match r {
            Some(u) => url_parse_of(text@) == Some((u.serialization@, u.path@)),
            None => url_parse_of(text@) is None,
        },
{
    match url::Url::parse(text) {
        Ok(u) => Some(ParsedUrl { serialization: u.as_str().to_string(), path: u.path().to_string() }),
        Err(_) => None,
    }
}

impl ParsedUrl {
    /// The serialization and the path.
    pub open spec fn parts(self) -> (Seq<char>, Seq<char>) {
        (self.serialization@, self.path@)
    }

    /// Parses an absolute URL.
    pub fn parse(text: &str) -> (r: Option<ParsedUrl>)
        ensures
            match r {
                Some(u) => url_parse_of(text@) == Some(u.parts()),
                None => url_parse_of(text@) is None,
            },
    {
        parse_url(text)
    }
}

pub open spec fn ends_with_slash(path: Seq<char>) -> bool {
    path.len() > 0 && path.last() == '/'
}

/// The URL with a slash at the end of its path: the URL itself where its path
/// already ends in one, else what parsing its serialization with a slash
/// appended gives. Appending to the text keeps the last path segment, which a
/// relative join with "/" would drop.
pub open spec fn slash_terminated(url: ParsedUrl) -> Option<(Seq<char>, Seq<char>)> {
    if ends_with_slash(url.path@) {
        Some(url.parts())
    } else {
        url_parse_of(url.serialization@.push('/'))
    }
}

fn path_ends_with_slash(path: &String) -> (r: bool)
    ensures
        r == ends_with_slash(path@),
{
    let p = path.as_str();
    let n = p.unicode_len();
    n > 0 && p.get_char(n - 1) == '/'
}

/// Makes the path of `url` end in a slash (see `slash_terminated`); `None`
/// where the extended text does not parse.
pub fn ensure_trailing_slash(url: &ParsedUrl) -> (r: Option<ParsedUrl>)
    ensures
        match r {
            Some(u) => slash_terminated(*url) == Some(u.parts()),
            None => slash_terminated(*url) is None,
        },
        ends_with_slash(url.path@) ==> r == Some(*url),
{
    if path_ends_with_slash(&url.path) {
        Some(ParsedUrl { serialization: url.serialization.clone(), path: url.path.clone() })
    } else {
        let text = url.serialization.clone().concat("/");
        proof {
            reveal_strlit("/");
            assert(text@ =~= url.serialization@.push('/'));
        }
        parse_url(text.as_str())
    }
}

/// A URL that already ends in a slash is left as it is.
pub proof fn lemma_trailing_slash_fixed_point(url: ParsedUrl)
    requires
        ends_with_slash(url.path@),
    ensures
        slash_terminated(url) == Some(url.parts()),
{
}

/// One mirror of an origin, as the download client uses it.
pub struct Mirror {
    pub url: ParsedUrl,
    pub no_zstd: bool,
    pub no_bz2: bool,
    pub max_failures: Option<usize>,
}

/// An origin and its mirrors, in order of preference, as configured.
pub struct MirrorSource {
    pub origin: ParsedUrl,
    pub mirrors: Vec<ParsedUrl>,
}

/// An origin and its mirrors, all slash-terminated.
pub struct MirrorEntry {
    pub origin: ParsedUrl,
    pub mirrors: Vec<Mirror>,
}

/// `m` is the mirror made of `u`: slash-terminated, with every feature on and
/// no failure limit.
pub open spec fn mirror_of(m: Mirror, u: ParsedUrl) -> bool {
    &&& slash_terminated(u) == Some(m.url.parts())
    &&& !m.no_zstd
    &&& !m.no_bz2
    &&& m.max_failures is None
}

pub open spec fn source_normalizable(s: MirrorSource) -> bool {
    &&& slash_terminated(s.origin) is Some
    &&& forall|j: int| 0 <= j < s.mirrors@.len() ==> (#[trigger] slash_terminated(s.mirrors@[j])) is Some
}

pub open spec fn entry_of(e: MirrorEntry, s: MirrorSource) -> bool {
    &&& slash_terminated(s.origin) == Some(e.origin.parts())
    &&& e.mirrors@.len() == s.mirrors@.len()
    &&& forall|j: int| 0 <= j < s.mirrors@.len() ==> mirror_of(#[trigger] e.mirrors@[j], s.mirrors@[j])
}

/// The table entry of one configured origin; `None` where one of its URLs
/// cannot be slash-terminated.
pub fn mirror_entry(source: &MirrorSource) -> (r: Option<MirrorEntry>)
    ensures
        r is Some <==> source_normalizable(*source),
        r matches Some(e) ==> entry_of(e, *source),
{
    let mut mirrors: Vec<Mirror> = Vec::new();
    let mut j: usize = 0;
    while j < source.mirrors.len()
        invariant
            j <= source.mirrors@.len(),
            mirrors@.len() == j,
            forall|k: int| 0 <= k < j ==> mirror_of(#[trigger] mirrors@[k], source.mirrors@[k]),
            forall|k: int| 0 <= k < j ==> (#[trigger] slash_terminated(source.mirrors@[k])) is Some,
        decreases source.mirrors@.len() - j,
    {
        let url = match ensure_trailing_slash(&source.mirrors[j]) {
            Some(u) => u,
            None => {
                return None;
            },
        };
        mirrors.push(Mirror { url, no_zstd: false, no_bz2: false, max_failures: None });
        j = j + 1;
    }
    let origin = match ensure_trailing_slash(&source.origin) {
        Some(u) => u,
        None => {
            return None;
        },
    };
    Some(MirrorEntry { origin, mirrors })
}

/// The mirror table of a configuration, entry by entry in the order given;
/// `None` where any URL of it cannot be slash-terminated.
pub fn mirror_table(sources: &Vec<MirrorSource>) -> (r: Option<Vec<MirrorEntry>>)
    ensures
        r is Some <==> forall|i: int| 0 <= i < sources@.len() ==> source_normalizable(#[trigger] sources@[i]),
        r matches Some(t) ==> t@.len() == sources@.len()
            && forall|i: int| 0 <= i < sources@.len() ==> entry_of(#[trigger] t@[i], sources@[i]),
{
    let mut table: Vec<MirrorEntry> = Vec::new();
    let mut i: usize = 0;
    while i < sources.len()
        invariant
            i <= sources@.len(),
            table@.len() == i,
            forall|k: int| 0 <= k < i ==> source_normalizable(sources@[k]),
            forall|k: int| 0 <= k < i ==> entry_of(#[trigger] table@[k], sources@[k]),
        decreases sources@.len() - i,
    {
        match mirror_entry(&sources[i]) {
            Some(e) => {
                table.push(e);
            },
            None => {
                return None;
            },
        }
        i = i + 1;
    }
    Some(table)
}

} // verus!
