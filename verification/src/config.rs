//! What the generator is told besides the declaration: what the interface is
//! called and which version an untagged field belongs to.

use vstd::prelude::*;
use vstd::string::*;

use crate::version::{version_of, ParseError, Version};

verus! {

/// The parameters of one generation.
pub struct Config {
    /// What the interface is called. It is written into the documentation of
    /// the alternatives and nowhere else.
    pub name: String,
    /// The minimum version of each field that carries no tag.
    pub version_default: Version,
}

impl Config {
    /// The name that the arguments give: the first of them, `JNI` where there
    /// is none.
    pub open spec fn name_from(args: Seq<String>) -> Seq<char> {
        if args.len() > 0 {
            args[0]@
        } else {
            "JNI"@
        }
    }

    /// The default version that the arguments give: what the second of them
    /// denotes, 1.1 where there is none.
    pub open spec fn version_default_from(args: Seq<String>) -> Option<Version> {
        if args.len() > 1 {
            version_of(args[1]@)
        } else {
            Some(Version { major: 1, minor: 1 })
        }
    }

    /// Reads the parameters from the literals given to the generator: first
    /// the name, then the default version. Both may be left out; what follows
    /// them is not looked at. The one failure is a second literal that does
    /// not read as a version.
    pub fn parse(args: &Vec<String>) -> (r: Result<Config, ParseError>)
        ensures
            match r {
                Ok(cfg) => {
                    &&& cfg.name@ == Config::name_from(args@)
                    &&& Config::version_default_from(args@) == Some(cfg.version_default)
                },
                Err(_) => Config::version_default_from(args@) is None,
            },
    {
        let name = if args.len() > 0 {
            args[0].clone()
        } else {
            String::from_str("JNI")
        };
        let version_default = if args.len() > 1 {
            match Version::try_from(args[1].as_str()) {
                Ok(v) => v,
                Err(e) => {
                    return Err(e);
                },
            }
        } else {
            Version::default()
        };
        Ok(Config { name, version_default })
    }
}

} // verus!
