//! The parsed command-line configuration: which document to read, which
//! action to run, and the flags given for that action.

use vstd::prelude::*;

verus! {

/// The action requested on the command line.
#[derive(Clone, Copy, Debug, PartialEq, Eq, Structural)]
pub enum ActionType {
    Up,
    Down,
    Ps,
    Stop,
    Undefined,
}

/// Flags accepted by the `up` action.
#[derive(Clone, Copy, Debug, PartialEq, Eq, Structural)]
pub enum UpArgument {
    Detach,
    Network,
}

/// Flags accepted by the `ps` action.
#[derive(Clone, Copy, Debug, PartialEq, Eq, Structural)]
pub enum PsArgument {
    All,
}

/// The whole parsed invocation.
pub struct Config {
    pub filename: String,
    pub action: ActionType,
    pub up_arguments: Vec<UpArgument>,
    pub ps_arguments: Vec<PsArgument>,
}

/// The action selected by a subcommand name; any unknown name maps to
/// `Undefined`.
pub open spec fn spec_action_of(sub: Seq<char>) -> ActionType {
    if sub == "up"@ {
        ActionType::Up
    } else if sub == "down"@ {
        ActionType::Down
    } else if sub == "ps"@ {
        ActionType::Ps
    } else if sub == "stop"@ {
        ActionType::Stop
    } else {
        ActionType::Undefined
    }
}

/// The `up` flag list: `Detach` first, then `Network`, each present exactly
/// when its flag was given; empty for every other subcommand.
pub open spec fn spec_up_arguments(sub: Seq<char>, detach: bool, network: bool) -> Seq<UpArgument> {
    if sub == "up"@ {
        (if detach {
            seq![UpArgument::Detach]
        } else {
            Seq::empty()
        }) + (if network {
            seq![UpArgument::Network]
        } else {
            Seq::empty()
        })
    } else {
        Seq::empty()
    }
}

/// The `ps` flag list: `All` exactly when that flag was given to `ps`.
pub open spec fn spec_ps_arguments(sub: Seq<char>, all: bool) -> Seq<PsArgument> {
    if sub == "ps"@ && all {
        seq![PsArgument::All]
    } else {
        Seq::empty()
    }
}

proof fn lemma_subcommands_distinct()
    ensures
        "up"@ != "down"@,
        "up"@ != "ps"@,
        "up"@ != "stop"@,
        "down"@ != "ps"@,
        "down"@ != "stop"@,
        "ps"@ != "stop"@,
{
    reveal_strlit("up");
    reveal_strlit("down");
    reveal_strlit("ps");
    reveal_strlit("stop");
    assert("up"@.len() == 2);
    assert("down"@.len() == 4);
    assert("ps"@.len() == 2);
    assert("stop"@.len() == 4);
    assert("up"@[0] == 'u');
    assert("ps"@[0] == 'p');
    assert("down"@[0] == 'd');
    assert("stop"@[0] == 's');
}

impl Config {
    /// Builds the configuration from the values read off the command line:
    /// the optional `--file` value, the subcommand name (empty when none was
    /// given) and the flags of that subcommand.
    pub fn new(file: Option<String>, sub: String, detach: bool, network: bool, all: bool) -> (r: Config)
        ensures
            r.filename@ == (match file {
                Some(f) => f@,
                None => "default"@,
            }),
            r.action == spec_action_of(sub@),
            r.up_arguments@ == spec_up_arguments(sub@, detach, network),
            r.ps_arguments@ == spec_ps_arguments(sub@, all),
    {
        let filename: String = match file {
            Some(f) => f,
            None => "default".to_owned(),
        };
        let action: ActionType;
        let mut up_arguments: Vec<UpArgument> = Vec::new();
        let mut ps_arguments: Vec<PsArgument> = Vec::new();
        if sub == "up".to_owned() {
            action = ActionType::Up;
            if detach {
                up_arguments.push(UpArgument::Detach);
            }
            if network {
                up_arguments.push(UpArgument::Network);
            }
        } else if sub == "down".to_owned() {
            action = ActionType::Down;
        } else if sub == "ps".to_owned() {
            action = ActionType::Ps;
            if all {
                ps_arguments.push(PsArgument::All);
            }
        } else if sub == "stop".to_owned() {
            action = ActionType::Stop;
        } else {
            action = ActionType::Undefined;
        }
        proof {
            lemma_subcommands_distinct();
            assert(up_arguments@ =~= spec_up_arguments(sub@, detach, network));
            assert(ps_arguments@ =~= spec_ps_arguments(sub@, all));
        }
        Config { filename, action, up_arguments, ps_arguments }
    }
}

} // verus!
