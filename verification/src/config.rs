//! The configuration of the embedded service.

use vstd::prelude::*;

verus! {

/// The texts of a list of strings.
pub open spec fn texts(strings: Seq<String>) -> Seq<Seq<char>> {
    Seq::new(strings.len(), |i: int| strings[i]@)
}

/// The configuration of the embedded service.
pub struct AWConfig {
    /// The address the service listens on.
    pub address: String,
    /// The port the service listens on.
    pub port: u16,
    /// Whether the service runs in test mode.
    pub testing: bool,
    /// Origins that may use the service besides its own.
    pub cors: Vec<String>,
}

/// A configuration, as a value of specifications.
pub struct ConfigView {
    pub address: Seq<char>,
    pub port: u16,
    pub testing: bool,
    pub cors: Seq<Seq<char>>,
}

impl ConfigView {
    /// The configuration a service has unless it is told otherwise.
    pub open spec fn initial() -> ConfigView {
        ConfigView {
            address: "127.0.0.1"@,
            port: 5600,
            testing: false,
            cors: Seq::<Seq<char>>::empty(),
        }
    }

    /// This configuration on another port.
    pub open spec fn with_port(self, port: u16) -> ConfigView {
        ConfigView { address: self.address, port: port, testing: self.testing, cors: self.cors }
    }
}

impl View for AWConfig {
    type V = ConfigView;

    open spec fn view(&self) -> ConfigView {
        ConfigView {
            address: self.address@,
            port: self.port,
            testing: self.testing,
            cors: texts(self.cors@),
        }
    }
}

impl Default for AWConfig {
    fn default() -> (config: AWConfig)
        ensures
            config@ == ConfigView::initial(),
    {
        let config = AWConfig {
            address: "127.0.0.1".to_owned(),
            port: 5600,
            testing: false,
            cors: Vec::new(),
        };
        assert(texts(config.cors@) =~= Seq::<Seq<char>>::empty());
        config
    }
}

} // verus!
