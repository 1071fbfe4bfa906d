//! Shell commands and command-line arguments.
use vstd::prelude::*;
use vstd::string::*;

verus! {

/// The command-line arguments.
pub struct Args {
    /// Path of the configuration file.
    pub config: String,
}

/// A command given as its words: the program and its arguments. Fails with
/// "Command not provided" when there are no words.
pub fn command_parts(args: Vec<String>) -> (r: Result<(String, Vec<String>), String>)
    ensures
        args@.len() == 0 ==> (r matches Err(e) && e@ == "Command not provided"@),
        args@.len() > 0 ==> (r matches Ok((program, rest)) && program == args@[0] && rest@ == args@.skip(1)),
{
    if args.len() == 0 {
        return Err("Command not provided".to_owned());
    }
    let mut rest: Vec<String> = Vec::new();
    let mut i: usize = 1;
    while i < args.len()
        invariant
            1 <= i <= args@.len(),
            rest@ == args@.subrange(1, i as int),
        decreases args.len() - i,
    {
        rest.push(args[i].clone());
        assert(rest@ =~= args@.subrange(1, i + 1));
        i = i + 1;
    }
    assert(args@.skip(1) =~= args@.subrange(1, args@.len() as int));
    Ok((args[0].clone(), rest))
}

/// The Lua module search path with the configuration file's folder put
/// first: `<base_dir>/?.lua;<path>`.
pub fn lua_package_path(base_dir: &str, path: &str) -> (r: String)
    ensures
        r@ == base_dir@ + "/?.lua;"@ + path@,
{
    let mut r = base_dir.to_owned();
    r.append("/?.lua;");
    r.append(path);
    r
}

} // verus!
