//! Platform-specific path resolution.
//!
//! Given the operating-system identity and the values of the home-locating
//! environment variables (read by the host and handed in as plain strings),
//! these functions compute the per-user configuration directory, the backend
//! executable path inside the packaged resources, and the runtime directory
//! layout the backend is given. Paths are joined with `/`, which every
//! supported platform accepts. Nothing here touches the filesystem.

use vstd::prelude::*;

verus! {

/// The operating-system identity the resolver branches on.
#[derive(Clone, Copy, PartialEq, Eq, Structural, Debug)]
pub enum OsKind {
    MacOs,
    Windows,
    Other,
}

/// Failure of path resolution.
#[derive(Clone, Copy, PartialEq, Eq, Structural, Debug)]
pub enum PathError {
    /// Neither the primary nor the fallback home-locating variable was set.
    HomeDirectoryUnavailable,
}

/// The home directory the resolver settles on: the primary home variable if
/// set, the fallback profile variable otherwise.
pub open spec fn spec_home_base(home: Option<Seq<char>>, userprofile: Option<Seq<char>>) -> Option<
    Seq<char>,
> {
    match home {
        Some(h) => Some(h),
        None => userprofile,
    }
}

/// The per-user configuration directory, by platform convention:
/// `~/Library/Application Support/clientats` on macOS,
/// `%APPDATA%/clientats` on Windows (with `~/AppData/Roaming` standing in
/// when the variable is unset), and `~/.config/clientats` elsewhere.
pub open spec fn spec_config_dir(
    os: OsKind,
    home: Option<Seq<char>>,
    userprofile: Option<Seq<char>>,
    appdata: Option<Seq<char>>,
) -> Result<Seq<char>, PathError> {
    match spec_home_base(home, userprofile) {
        None => Err(PathError::HomeDirectoryUnavailable),
        Some(base) => Ok(
            match os {
                OsKind::MacOs => base + "/Library/Application Support/clientats"@,
                OsKind::Windows => match appdata {
                    Some(a) => a + "/clientats"@,
                    None => base + "/AppData/Roaming/clientats"@,
                },
                OsKind::Other => base + "/.config/clientats"@,
            },
        ),
    }
}

/// Resolve the per-user configuration directory from the environment values.
pub fn config_dir(
    os: OsKind,
    home: Option<&str>,
    userprofile: Option<&str>,
    appdata: Option<&str>,
) -> (r: Result<String, PathError>)
    ensures
        (match r {
            Ok(p) => spec_config_dir(os, home.deep_view(), userprofile.deep_view(), appdata.deep_view())
                == Ok::<Seq<char>, PathError>(p@),
            Err(e) => spec_config_dir(os, home.deep_view(), userprofile.deep_view(), appdata.deep_view())
                == Err::<Seq<char>, PathError>(e),
        }),
{
    let base: &str = match home {
        Some(h) => h,
        None => match userprofile {
            Some(u) => u,
            None => {
                return Err(PathError::HomeDirectoryUnavailable);
            },
        },
    };
    match os {
        OsKind::MacOs => {
            let mut p = base.to_owned();
            p.append("/Library/Application Support/clientats");
            Ok(p)
        },
        OsKind::Windows => match appdata {
            Some(a) => {
                let mut p = a.to_owned();
                p.append("/clientats");
                Ok(p)
            },
            None => {
                let mut p = base.to_owned();
                p.append("/AppData/Roaming/clientats");
                Ok(p)
            },
        },
        OsKind::Other => {
            let mut p = base.to_owned();
            p.append("/.config/clientats");
            Ok(p)
        },
    }
}

/// The backend executable inside the packaged resource directory: a batch
/// script on Windows, the plain release script elsewhere.
pub open spec fn spec_backend_executable(os: OsKind, resource_dir: Seq<char>) -> Seq<char> {
    match os {
        OsKind::Windows => resource_dir + "/phoenix/bin/clientats.bat"@,
        _ => resource_dir + "/phoenix/bin/clientats"@,
    }
}

/// Resolve the backend executable path from the packaging root.
pub fn backend_executable(os: OsKind, resource_dir: &str) -> (p: String)
    ensures
        p@ == spec_backend_executable(os, resource_dir@),
{
    let mut p = resource_dir.to_owned();
    match os {
        OsKind::Windows => p.append("/phoenix/bin/clientats.bat"),
        _ => p.append("/phoenix/bin/clientats"),
    }
    p
}

/// The directories the backend runs against, all under the configuration
/// directory, and the database file inside the database directory.
pub struct RuntimeDirectories {
    pub config_dir: String,
    pub db_dir: String,
    pub upload_dir: String,
    pub db_path: String,
}

impl RuntimeDirectories {
    /// The layout is fully determined by the configuration directory.
    pub open spec fn wf_for(self, config: Seq<char>) -> bool {
        &&& self.config_dir@ == config
        &&& self.db_dir@ == config + "/db"@
        &&& self.upload_dir@ == config + "/uploads"@
        &&& self.db_path@ == config + "/db/clientats.db"@
    }

    /// Compute the runtime directory layout under a configuration directory.
    pub fn from_config_dir(config: &str) -> (r: RuntimeDirectories)
        ensures
            r.wf_for(config@),
    {
        let mut db_dir = config.to_owned();
        db_dir.append("/db");
        let mut db_path = db_dir.clone();
        db_path.append("/clientats.db");
        let mut upload_dir = config.to_owned();
        upload_dir.append("/uploads");
        let r = RuntimeDirectories {
            config_dir: config.to_owned(),
            db_dir,
            upload_dir,
            db_path,
        };
        assert(r.db_path@ =~= config@ + "/db/clientats.db"@) by {
            reveal_strlit("/db");
            reveal_strlit("/clientats.db");
            reveal_strlit("/db/clientats.db");
        }
        r
    }
}

} // verus!
