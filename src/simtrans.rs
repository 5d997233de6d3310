use vstd::prelude::*;

use crate::row::same_text;

verus! {

pub const PRD_SERVER: &'static str = "HSSSNData";

pub const DEV_SERVER: &'static str = "hiisqlserv6";

/// Where and what to run for one phase of a SimTrans execution.
#[derive(Debug)]
pub struct SqlParams {
    pub server: &'static str,
    pub database: &'static str,
    pub query: &'static str,
}

/// What the command line asks for.
#[derive(Debug)]
pub enum Invocation {
    Help,
    Run(SqlParams),
}

/// A command line that names no runnable phase.
#[derive(Debug)]
pub enum ArgsError {
    /// Fewer than an environment and a phase.
    NotEnoughArguments,
    InvalidEnvironment(String),
    InvalidPhase(String),
}

/// Server and database of an environment name.
pub open spec fn environment_of(env: Seq<char>) -> Option<(Seq<char>, Seq<char>)> {
    if env == "dev"@ {
        Some(("hiisqlserv6"@, "SNInterDev"@))
    } else if env == "qas"@ {
        Some(("hiisqlserv6"@, "SNInterQas"@))
    } else if env == "prd"@ {
        Some(("HSSSNData"@, "SNInterPrd"@))
    } else {
        None
    }
}

/// The statement of a phase name.
pub open spec fn phase_query_of(phase: Seq<char>) -> Option<Seq<char>> {
    if phase == "preexec"@ {
        Some("EXEC sap.SimTransPreExec;"@)
    } else if phase == "postexec"@ {
        Some("EXEC sap.SimTransPostExec;"@)
    } else {
        None
    }
}

pub open spec fn is_help(arg: Seq<char>) -> bool {
    arg == "--help"@ || arg == "-h"@ || arg == "help"@
}

/// Reads the command line `program environment phase`: help where the
/// environment asks for it, else the server, database and statement.
pub fn parse_args(args: &Vec<String>) -> (r: Result<Invocation, ArgsError>)
    ensures
        args@.len() < 3 ==> r matches Err(ArgsError::NotEnoughArguments),
        args@.len() >= 3 ==> {
            let env = args@[1]@;
            let phase = args@[2]@;
            if is_help(env) {
                r matches Ok(Invocation::Help)
            } else {
                match environment_of(env) {
                    None => r matches Err(ArgsError::InvalidEnvironment(e)) && e@ == env,
                    Some((server, database)) => match phase_query_of(phase) {
                        None => r matches Err(ArgsError::InvalidPhase(p)) && p@ == phase,
                        Some(query) => r matches Ok(Invocation::Run(params)) && params.server@ == server
                            && params.database@ == database && params.query@ == query,
                    },
                }
            }
        },
{
    if args.len() < 3 {
        return Err(ArgsError::NotEnoughArguments);
    }
    let env = args[1].as_str();
    let phase = args[2].as_str();
    if same_text(env, "--help") || same_text(env, "-h") || same_text(env, "help") {
        return Ok(Invocation::Help);
    }
    let (server, database): (&'static str, &'static str) = if same_text(env, "dev") {
        (DEV_SERVER, "SNInterDev")
    } else if same_text(env, "qas") {
        (DEV_SERVER, "SNInterQas")
    } else if same_text(env, "prd") {
        (PRD_SERVER, "SNInterPrd")
    } else {
        return Err(ArgsError::InvalidEnvironment(env.to_owned()));
    };
    let query: &'static str = if same_text(phase, "preexec") {
        "EXEC sap.SimTransPreExec;"
    } else if same_text(phase, "postexec") {
        "EXEC sap.SimTransPostExec;"
    } else {
        return Err(ArgsError::InvalidPhase(phase.to_owned()));
    };
    Ok(Invocation::Run(SqlParams { server, database, query }))
}

} // verus!
