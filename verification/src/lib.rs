use vstd::prelude::*;

pub mod kinds;
pub mod negotiate;
pub mod laws;
pub mod gitcred;
pub mod transfer;
pub mod refpaths;
pub mod clonepath;

verus! {

/// The author identity a commit or tag is signed with, as read from the
/// layered configuration.
pub struct Author {
    pub name: String,
    pub email: String,
}

/// The author identity the given configuration holds: its `user.name` paired
/// with its `user.email`. The first lookup that fails decides the error; what
/// the configuration holds is the host's affair, so nothing more is promised.
pub fn get_signature(cfg: &git2::Config) -> (r: Result<Author, git2::Error>) {
    let name = match crate::gitcred::config_get_string(cfg, "user.name") {
        Ok(n) => n,
        Err(e) => { return Err(e); },
    };
    let email = match crate::gitcred::config_get_string(cfg, "user.email") {
        Ok(m) => m,
        Err(e) => { return Err(e); },
    };
    Ok(Author { name, email })
}

} // verus!
