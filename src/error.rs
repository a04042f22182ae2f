use vstd::prelude::*;

verus! {

/// Every way in which scaffolding a workspace can fail.
#[derive(Debug, Clone, PartialEq, Eq)]
pub enum WgError {
    /// A member name was requested twice over the library and binary lists.
    DuplicateMember(String),
    /// The target path cannot be represented as text.
    InvalidPath(String),
    /// The target exists and is not a directory.
    NotADirectory(String),
    /// The target directory holds entries and no override was given.
    DirectoryNotEmpty(String),
    /// The existing manifest (path, the parser's report with its location) is
    /// not a well-formed document.
    ManifestParse(String, String),
    /// The manifest's `workspace` key holds something other than a table.
    ManifestShape,
    /// A directory for the member (name, directory) is already there.
    MemberAlreadyExists(String, String),
    /// An external command could not run or reported failure (what ran, status).
    ExternalCommandFailed(String, String),
    /// A read, write or create on the file system failed.
    Io(String),
}

impl WgError {
    /// The one-line diagnostic of the error.
    pub open spec fn message_text(&self) -> Seq<char> {
        match self {
            WgError::DuplicateMember(n) => "member "@ + n@ + " declared multiple times"@,
            WgError::InvalidPath(p) => "target path is not valid UTF-8: "@ + p@,
            WgError::NotADirectory(p) => p@ + " exists and is not a directory"@,
            WgError::DirectoryNotEmpty(p) => "directory "@ + p@
                + " is not empty (use --force to override)"@,
            WgError::ManifestParse(p, e) => "failed to parse "@ + p@ + ": "@ + e@,
            WgError::ManifestShape => "workspace section is not a table"@,
            WgError::MemberAlreadyExists(n, d) => "member "@ + n@ + " already exists at "@ + d@,
            WgError::ExternalCommandFailed(what, status) => what@ + " exited with "@ + status@,
            WgError::Io(e) => e@,
        }
    }

    /// The one-line diagnostic of the error.
    pub fn message(&self) -> (r: String)
        ensures
            r@ == self.message_text(),
    {
        match self {
            WgError::DuplicateMember(n) => {
                let mut s = String::from_str("member ");
                s.append(n.as_str());
                s.append(" declared multiple times");
                s
            },
            WgError::InvalidPath(p) => {
                let mut s = String::from_str("target path is not valid UTF-8: ");
                s.append(p.as_str());
                s
            },
            WgError::NotADirectory(p) => {
                let mut s = p.clone();
                s.append(" exists and is not a directory");
                s
            },
            WgError::DirectoryNotEmpty(p) => {
                let mut s = String::from_str("directory ");
                s.append(p.as_str());
                s.append(" is not empty (use --force to override)");
                s
            },
            WgError::ManifestParse(p, e) => {
                let mut s = String::from_str("failed to parse ");
                s.append(p.as_str());
                s.append(": ");
                s.append(e.as_str());
                s
            },
            WgError::ManifestShape => String::from_str("workspace section is not a table"),
            WgError::MemberAlreadyExists(n, d) => {
                let mut s = String::from_str("member ");
                s.append(n.as_str());
                s.append(" already exists at ");
                s.append(d.as_str());
                s
            },
            WgError::ExternalCommandFailed(what, status) => {
                let mut s = what.clone();
                s.append(" exited with ");
                s.append(status.as_str());
                s
            },
            WgError::Io(e) => e.clone(),
        }
    }
}

} // verus!
