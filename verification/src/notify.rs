//! Desktop notification: the exact command that delivers one, per
//! platform. Spawning the command — and ignoring its errors, as
//! notifications are fire-and-forget — is an outside concern.

use crate::runner::CommandSpec;
use crate::text::{push_string, string_from_chars, str_chars};
use vstd::prelude::*;

verus! {

/// The platforms notifications know how to reach.
#[derive(Debug, Clone, Copy, PartialEq, Eq, Structural)]
pub enum Platform {
    MacOs,
    Linux,
    Other,
}

/// A double quote escaped for an AppleScript string literal; any other
/// character unchanged.
pub open spec fn spec_escape_unit(c: char) -> Seq<char> {
    if c == '"' {
        seq!['\\', '"']
    } else {
        seq![c]
    }
}

/// `s` with every double quote escaped.
pub open spec fn spec_escape_quotes(s: Seq<char>) -> Seq<char>
    decreases s.len(),
{
    if s.len() == 0 {
        Seq::empty()
    } else {
        spec_escape_unit(s[0]) + spec_escape_quotes(s.drop_first())
    }
}

proof fn lemma_escape_push(s: Seq<char>, c: char)
    ensures
        spec_escape_quotes(s.push(c)) == spec_escape_quotes(s) + spec_escape_unit(c),
    decreases s.len(),
{
    if s.len() == 0 {
        assert(s.push(c)[0] == c);
        assert(s.push(c).drop_first() =~= Seq::<char>::empty());
        assert(s =~= Seq::<char>::empty());
        assert(spec_escape_quotes(Seq::<char>::empty()) == Seq::<char>::empty());
        assert(spec_escape_quotes(s.push(c)) =~= spec_escape_quotes(s) + spec_escape_unit(c));
    } else {
        lemma_escape_push(s.drop_first(), c);
        assert(s.push(c).drop_first() =~= s.drop_first().push(c));
        assert(s.push(c)[0] == s[0]);
        assert(spec_escape_quotes(s.push(c)) =~= spec_escape_quotes(s) + spec_escape_unit(c));
    }
}

fn escape_quotes(s: &str) -> (r: String)
    ensures
        r@ == spec_escape_quotes(s@),
{
    let v = str_chars(s);
    let mut out: Vec<char> = Vec::new();
    let mut i: usize = 0;
    proof {
        assert(s@.take(0) =~= Seq::<char>::empty());
    }
    while i < v.len()
        invariant
            i <= v@.len(),
            v@ == s@,
            out@ == spec_escape_quotes(s@.take(i as int)),
        decreases v@.len() - i,
    {
        let c = v[i];
        if c == '"' {
            out.push('\\');
            out.push('"');
        } else {
            out.push(c);
        }
        i = i + 1;
        proof {
            lemma_escape_push(s@.take(i - 1), s@[i - 1]);
            assert(s@.take(i - 1).push(s@[i - 1]) =~= s@.take(i as int));
            assert(out@ =~= spec_escape_quotes(s@.take(i as int)));
        }
    }
    proof {
        assert(s@.take(s@.len() as int) =~= s@);
    }
    string_from_chars(&out)
}

/// The AppleScript that shows one notification.
pub open spec fn spec_macos_script(title: Seq<char>, message: Seq<char>) -> Seq<char> {
    "display notification \""@ + spec_escape_quotes(message) + "\" with title \""@
        + spec_escape_quotes(title) + "\""@
}

/// The command that delivers a notification on `platform`, or nothing
/// where no delivery is known: `osascript` with an escaped AppleScript
/// line on macOS, `notify-send` with the bare title and message on Linux.
pub fn send_notification(title: &str, message: &str, platform: Platform) -> (r: Option<
    CommandSpec,
>)
    ensures
        match r {
            Option::Some(c) => match platform {
                Platform::MacOs => c@.program == "osascript"@ && c@.args == seq![
                    "-e"@,
                    spec_macos_script(title@, message@),
                ],
                Platform::Linux => c@.program == "notify-send"@ && c@.args == seq![
                    title@,
                    message@,
                    "--icon=system-software-update"@,
                ],
                Platform::Other => false,
            },
            Option::None => platform is Other,
        },
{
    match platform {
        Platform::MacOs => {
            let mut script = "display notification \"".to_owned();
            let escaped_message = escape_quotes(message);
            script.append(escaped_message.as_str());
            script.append("\" with title \"");
            let escaped_title = escape_quotes(title);
            script.append(escaped_title.as_str());
            script.append("\"");
            proof {
                assert(script@ =~= spec_macos_script(title@, message@));
            }
            let mut args: Vec<String> = Vec::new();
            push_string(&mut args, "-e".to_owned());
            push_string(&mut args, script);
            proof {
                assert(args.deep_view() =~= seq!["-e"@, spec_macos_script(title@, message@)]);
            }
            Option::Some(CommandSpec { program: "osascript".to_owned(), args })
        },
        Platform::Linux => {
            let mut args: Vec<String> = Vec::new();
            push_string(&mut args, title.to_owned());
            push_string(&mut args, message.to_owned());
            push_string(&mut args, "--icon=system-software-update".to_owned());
            proof {
                assert(args.deep_view() =~= seq![
                    title@,
                    message@,
                    "--icon=system-software-update"@,
                ]);
            }
            Option::Some(CommandSpec { program: "notify-send".to_owned(), args })
        },
        Platform::Other => Option::None,
    }
}

} // verus!
