//! The arguments of the line search.

use vstd::prelude::*;

verus! {

/// What to look for, and in which file.
#[derive(Debug)]
pub struct Config {
    pub query: String,
    pub file_path: String,
}

impl Config {
    /// Reads the query and the file's path from the second and third
    /// argument; the first is the program's own name. What follows the third
    /// is ignored.
    pub fn build(args: &[String]) -> (r: Result<Config, &'static str>)
        ensures
            r is Err <==> args@.len() < 3,
            r matches Err(message) ==> message@ == "not enough arguments"@,
            r matches Ok(config) ==> config.query@ == args@[1]@ && config.file_path@
                == args@[2]@,
    {
        if args.len() < 3 {
            return Err("not enough arguments");
        }
        let query = args[1].clone();
        let file_path = args[2].clone();
        Ok(Config { query, file_path })
    }
}

} // verus!
