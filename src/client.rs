//! The settings of the download client that the installation engine uses.
use vstd::prelude::*;
use vstd::string::*;

verus! {

/// A request-rewriting layer of the download client.
#[derive(PartialEq, Eq, Structural, Clone, Copy, Debug)]
pub enum Layer {
    /// Redirects requests for a configured origin to its mirrors.
    Mirror,
    /// Resolves requests to alternate object-storage backends.
    ObjectStorage,
    /// Attaches stored credentials for the request's host.
    Authentication,
}

/// How the download client is built.
pub struct ClientSettings {
    /// Whether responses may be compressed; artifacts already are.
    pub compression: bool,
    pub pool_max_idle_per_host: usize,
    pub timeout_secs: u64,
    pub user_agent: String,
    /// The layers around the base transport, outermost first: a request passes
    /// them in this order before it is sent.
    pub layers: Vec<Layer>,
}

pub open spec fn layer_order() -> Seq<Layer> {
    seq![Layer::Mirror, Layer::ObjectStorage, Layer::Authentication]
}

/// The download client's settings for this program at `version`.
pub fn download_client_settings(version: &str) -> (r: ClientSettings)
    ensures
        !r.compression,
        r.pool_max_idle_per_host == 20,
        r.timeout_secs == 5 * 60,
        r.user_agent@ == "pixi-install-to-prefix/"@ + version@,
        r.layers@ == layer_order(),
{
    let layers = vec![Layer::Mirror, Layer::ObjectStorage, Layer::Authentication];
    assert(layers@ =~= layer_order());
    ClientSettings {
        compression: false,
        pool_max_idle_per_host: 20,
        timeout_secs: 5 * 60,
        user_agent: String::from_str("pixi-install-to-prefix/").concat(version),
        layers,
    }
}

} // verus!
