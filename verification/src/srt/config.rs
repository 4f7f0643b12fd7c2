//! Server configuration.
use vstd::prelude::*;

verus! {

/// The number of workers, or none to use one per available CPU.
#[derive(Copy, Clone, Debug)]
pub struct Workers(pub Option<usize>);

impl Workers {
    /// The number of workers: the configured one, else the available parallelism that the
    /// system reports (`parallelism`), else 1.
    pub fn get(self, parallelism: Option<usize>) -> (n: usize)
        ensures
            n == match self.0 {
                Some(w) => w,
                None => match parallelism {
                    Some(p) => p,
                    None => 1,
                },
            },
    {
        match self.0 {
            Some(w) => w,
            None => match parallelism {
                Some(p) => p,
                None => 1,
            },
        }
    }
}

} // verus!
