use vstd::prelude::*;

verus! {

/// The account or organization that owns a repository.
#[derive(Debug, Clone)]
pub struct Org {
    pub name: String,
}

impl Org {
    pub fn new(name: String) -> (r: Org)
        ensures
            r.name@ == name@,
    {
        Org { name }
    }
}

/// A repository, addressed by its owner's name and its own.
#[derive(Debug, Clone)]
pub struct Repo {
    pub org: String,
    pub name: String,
}

impl Repo {
    /// The repository `name` of `org`; the repository keeps a copy of the
    /// owner's name rather than a reference to the owner.
    pub fn new(org: &Org, name: String) -> (r: Repo)
        ensures
            r.org@ == org.name@,
            r.name@ == name@,
    {
        Repo { org: org.name.clone(), name }
    }
}

/// A binary file attached to a release.
#[derive(Debug, Clone, PartialEq, Eq)]
pub struct Asset {
    pub id: u64,
    pub url: String,
    pub browser_download_url: String,
    pub name: String,
    pub label: String,
}

/// A tagged release of a repository, as the server reports it.
#[derive(Debug, Clone, PartialEq, Eq)]
pub struct Release {
    pub id: u64,
    pub url: String,
    pub upload_url: String,
    pub tag_name: String,
    pub created_at: String,
    pub published_at: String,
    pub assets: Vec<Asset>,
}

/// Every way an operation can fail.
#[derive(Debug, Clone, PartialEq, Eq)]
pub enum Error {
    /// No bearer token was available.
    MissingCredential,
    /// The assembled address is not a well-formed absolute URL.
    MalformedUrl,
    /// The network round trip failed; carries the transport's message.
    Transport(String),
    /// The server answered with a status outside the 2xx range.
    RequestFailed(u16),
    /// A 2xx body could not be decoded into the expected shape.
    DecodeFailed(String),
    /// A local file could not be read; carries the system's message.
    LocalIo(String),
}

} // verus!
