use vstd::prelude::*;

verus! {

/// The message for a command line without a configuration file path.
pub const MISSING_FILEPATH: &'static str = "Missing filepath";

/// What the command line asks for: the path of the configuration file.
#[derive(Clone, Debug)]
pub struct Config {
    pub filepath: String,
}

impl Config {
    /// Reads the command line `args`, whose first item is the program's name
    /// and whose second is the configuration file path. Without a second item
    /// the result is the error `MISSING_FILEPATH`.
    pub fn build(args: &Vec<String>) -> (r: Result<Config, &'static str>)
        ensures
            r is Ok <==> args@.len() >= 2,
            r matches Ok(c) ==> c.filepath@ == args@[1]@,
            r matches Err(m) ==> m@ == MISSING_FILEPATH@,
    {
        if args.len() < 2 {
            return Err(MISSING_FILEPATH);
        }
        Ok(Config { filepath: args[1].clone() })
    }
}

} // verus!
