//! Muting the output of the system.

use vstd::prelude::*;

use crate::settings::Platform;
use crate::text::texts;

verus! {

/// A program to run, with its arguments.
pub struct MuteCommand {
    pub program: String,
    pub args: Vec<String>,
}

/// The mathematical content of a [`MuteCommand`].
pub struct MuteCommandModel {
    pub program: Seq<char>,
    pub args: Seq<Seq<char>>,
}

impl View for MuteCommand {
    type V = MuteCommandModel;

    open spec fn view(&self) -> MuteCommandModel {
        MuteCommandModel { program: self.program@, args: texts(self.args@) }
    }
}

/// The commands that mute the output, or unmute it, in the order in which they
/// are tried: until one succeeds. On Linux these are the ones of PipeWire,
/// PulseAudio and ALSA; on Windows no command does it.
pub open spec fn muting(platform: Platform, mute: bool) -> Seq<MuteCommandModel> {
    let value = if mute {
        "1"@
    } else {
        "0"@
    };
    match platform {
        Platform::Linux => seq![
            MuteCommandModel {
                program: "wpctl"@,
                args: seq!["set-mute"@, "@DEFAULT_AUDIO_SINK@"@, value],
            },
            MuteCommandModel {
                program: "pactl"@,
                args: seq!["set-sink-mute"@, "@DEFAULT_SINK@"@, value],
            },
            MuteCommandModel {
                program: "amixer"@,
                args: seq![
                    "set"@,
                    "Master"@,
                    if mute {
                        "mute"@
                    } else {
                        "unmute"@
                    },
                ],
            },
        ],
        Platform::MacIntel | Platform::MacApple => seq![
            MuteCommandModel {
                program: "osascript"@,
                args: seq![
                    "-e"@,
                    if mute {
                        "set volume output muted true"@
                    } else {
                        "set volume output muted false"@
                    },
                ],
            },
        ],
        _ => Seq::empty(),
    }
}

fn command(program: &str, first: &str, second: &str, third: Option<&str>) -> (r: MuteCommand)
    ensures
        r@.program == program@,
        r@.args == match third {
            Some(arg) => seq![first@, second@, arg@],
            None => seq![first@, second@],
        },
{
    let mut args: Vec<String> = Vec::new();
    args.push(first.to_owned());
    args.push(second.to_owned());
    if let Some(arg) = third {
        args.push(arg.to_owned());
    }
    let r = MuteCommand { program: program.to_owned(), args };
    proof {
        assert(r@.args =~= match third {
            Some(arg) => seq![first@, second@, arg@],
            None => seq![first@, second@],
        });
    }
    r
}

/// The commands that mute the output of the system, or unmute it: each is tried
/// where those before it have failed.
pub fn mute_commands(platform: Platform, mute: bool) -> (r: Vec<MuteCommand>)
    ensures
        r@.map_values(|c: MuteCommand| c@) == muting(platform, mute),
{
    let mut r: Vec<MuteCommand> = Vec::new();
    match platform {
        Platform::Linux => {
            let value = if mute {
                "1"
            } else {
                "0"
            };
            let state = if mute {
                "mute"
            } else {
                "unmute"
            };
            r.push(command("wpctl", "set-mute", "@DEFAULT_AUDIO_SINK@", Some(value)));
            r.push(command("pactl", "set-sink-mute", "@DEFAULT_SINK@", Some(value)));
            r.push(command("amixer", "set", "Master", Some(state)));
        },
        Platform::MacIntel | Platform::MacApple => {
            let script = if mute {
                "set volume output muted true"
            } else {
                "set volume output muted false"
            };
            r.push(command("osascript", "-e", script, None));
        },
        _ => {},
    }
    proof {
        assert(r@.map_values(|c: MuteCommand| c@) =~= muting(platform, mute));
    }
    r
}

/// The next command to run, after so many were tried and the last of them
/// succeeded or not.
pub open spec fn next_muting(platform: Platform, mute: bool, tried: nat, succeeded: bool) -> Option<
    MuteCommandModel,
> {
    if !succeeded && tried < muting(platform, mute).len() {
        Some(muting(platform, mute)[tried as int])
    } else {
        None
    }
}

/// The next command to run, after so many were tried and the last of them
/// succeeded or not: one after the other, until one succeeds or none is left.
pub fn next_mute_command(platform: Platform, mute: bool, tried: usize, succeeded: bool) -> (r:
    Option<MuteCommand>)
    ensures
        match r {
            Some(c) => !succeeded && tried < muting(platform, mute).len() && c@ == muting(
                platform,
                mute,
            )[tried as int],
            None => succeeded || tried >= muting(platform, mute).len(),
        },
        match r {
            Some(c) => next_muting(platform, mute, tried as nat, succeeded) == Some(c@),
            None => next_muting(platform, mute, tried as nat, succeeded) is None,
        },
{
    if succeeded {
        return None;
    }
    let mut commands = mute_commands(platform, mute);
    let ghost models = commands@.map_values(|c: MuteCommand| c@);
    if tried < commands.len() {
        proof {
            assert(models[tried as int] == commands@[tried as int]@);
        }
        Some(commands.remove(tried))
    } else {
        None
    }
}

/// The commands that are run from a point on, where each command ends as
/// `outcomes` says: true for a success.
pub open spec fn muting_run(
    platform: Platform,
    mute: bool,
    outcomes: spec_fn(nat) -> bool,
    tried: nat,
    succeeded: bool,
) -> Seq<MuteCommandModel>
    decreases muting(platform, mute).len() - tried,
{
    match next_muting(platform, mute, tried, succeeded) {
        Some(command) => seq![command] + muting_run(
            platform,
            mute,
            outcomes,
            tried + 1,
            outcomes(tried),
        ),
        None => Seq::empty(),
    }
}

/// A command is run only where all before it have failed, and none is run after
/// one that has succeeded; where all fail, all are run, each once and in order,
/// and that is all.
pub proof fn law_muting_falls_back(
    platform: Platform,
    mute: bool,
    outcomes: spec_fn(nat) -> bool,
    tried: nat,
)
    requires
        tried <= muting(platform, mute).len(),
    ensures
        ({
            let all = muting(platform, mute);
            let run = muting_run(platform, mute, outcomes, tried, false);
            let end = tried + run.len();
            &&& end <= all.len()
            &&& run == all.subrange(tried as int, end as int)
            &&& forall|i: nat| tried <= i < end - 1 ==> !#[trigger] outcomes(i)
            &&& end < all.len() ==> run.len() > 0 && outcomes((end - 1) as nat)
        }),
    decreases muting(platform, mute).len() - tried,
{
    let all = muting(platform, mute);
    let run = muting_run(platform, mute, outcomes, tried, false);
    if tried < all.len() {
        let rest = muting_run(platform, mute, outcomes, tried + 1, outcomes(tried));
        assert(run == seq![all[tried as int]] + rest);
        if outcomes(tried) {
            assert(rest =~= Seq::empty());
        } else {
            law_muting_falls_back(platform, mute, outcomes, tried + 1);
        }
        assert(run =~= all.subrange(tried as int, (tried + run.len()) as int));
    } else {
        assert(run =~= all.subrange(tried as int, (tried + run.len()) as int));
    }
}

/// macOS has one command, in AppleScript; Linux has one each for PipeWire,
/// PulseAudio and ALSA, tried in this order. Each mutes or unmutes as asked.
/// Nowhere else is there a command.
pub proof fn law_commands_do_what_is_asked(platform: Platform, mute: bool)
    ensures
        ({
            let all = muting(platform, mute);
            let number = if mute {
                "1"@
            } else {
                "0"@
            };
            match platform {
                Platform::MacIntel | Platform::MacApple => {
                    &&& all.len() == 1
                    &&& all[0].program == "osascript"@
                    &&& all[0].args == seq![
                        "-e"@,
                        if mute {
                            "set volume output muted true"@
                        } else {
                            "set volume output muted false"@
                        },
                    ]
                },
                Platform::Linux => {
                    &&& all.len() == 3
                    &&& all[0].program == "wpctl"@
                    &&& all[0].args == seq!["set-mute"@, "@DEFAULT_AUDIO_SINK@"@, number]
                    &&& all[1].program == "pactl"@
                    &&& all[1].args == seq!["set-sink-mute"@, "@DEFAULT_SINK@"@, number]
                    &&& all[2].program == "amixer"@
                    &&& all[2].args == seq![
                        "set"@,
                        "Master"@,
                        if mute {
                            "mute"@
                        } else {
                            "unmute"@
                        },
                    ]
                },
                _ => all.len() == 0,
            }
        }),
{
}

/// The first command is run in any case, and each further one exactly if the one
/// before it has failed.
pub proof fn law_the_next_command_follows_a_failure(platform: Platform, mute: bool, tried: nat)
    ensures
        next_muting(platform, mute, tried, true) is None,
        tried < muting(platform, mute).len() ==> next_muting(platform, mute, tried, false) == Some(
            muting(platform, mute)[tried as int],
        ),
        tried >= muting(platform, mute).len() ==> next_muting(platform, mute, tried, false) is None,
{
}

} // verus!
