//! The environments whose variables the host may load, and the file each is read from.

use vstd::prelude::*;

verus! {

/// The environment to load.
#[derive(Debug, Clone, Copy, PartialEq, Eq, Structural, PartialOrd, Ord)]
pub enum Env {
    /// The development environment.
    Dev,
    /// The production environment.
    Prod,
}

/// The file that holds the variables of an environment.
pub fn env_file(env: Env) -> (r: &'static str)
    ensures
        env == Env::Dev ==> r@ == ".env.dev"@,
        env == Env::Prod ==> r@ == ".env"@,
{
    match env {
        Env::Dev => ".env.dev",
        Env::Prod => ".env",
    }
}

} // verus!
