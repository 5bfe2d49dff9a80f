//! Service configuration: plain values describing where the server listens
//! and how the external generator is reached. Reading the environment is the
//! embedding program's concern; the library only holds the values.

use vstd::prelude::*;

verus! {

/// Connection settings of the hosting service and its generator endpoint.
#[derive(Debug)]
pub struct Config {
    pub host: String,
    pub port: u16,
    pub llm_base_url: String,
    pub llm_api_key: String,
    pub llm_model: String,
}

impl Clone for Config {
    fn clone(&self) -> (r: Self)
        ensures
            r == *self,
    {
        Config {
            host: self.host.clone(),
            port: self.port,
            llm_base_url: self.llm_base_url.clone(),
            llm_api_key: self.llm_api_key.clone(),
            llm_model: self.llm_model.clone(),
        }
    }
}

} // verus!
