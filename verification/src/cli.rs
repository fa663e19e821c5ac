//! What the program was asked to do.
use vstd::prelude::*;

use crate::overlay_renderer::INTERNAL_OVERLAY_MODE_ARG;
use crate::text::{cat3, decimal2, print_two_digits, same, texts};

verus! {

/// What the program was asked to do.
#[derive(Debug, Clone, Copy, PartialEq, Eq, Structural)]
pub enum LaunchMode {
    /// Inject the text on standard input once.
    InjectOnce,
    /// Inject test texts.
    TestInjection,
    /// Start and stop one session.
    Demo,
    /// Wait for the talk key.
    Client,
}

/// What the program was asked to do: the first of the wishes that was spoken.
pub fn launch_mode(internal_inject_once: bool, test_injection: bool, demo: bool) -> (r: LaunchMode)
    ensures
        r == if internal_inject_once {
            LaunchMode::InjectOnce
        } else if test_injection {
            LaunchMode::TestInjection
        } else if demo {
            LaunchMode::Demo
        } else {
            LaunchMode::Client
        },
{
    if internal_inject_once {
        LaunchMode::InjectOnce
    } else if test_injection {
        LaunchMode::TestInjection
    } else if demo {
        LaunchMode::Demo
    } else {
        LaunchMode::Client
    }
}

/// The arguments of the overlay process, if the program was asked to be it: what follows the
/// first argument, behind the process's own name.
pub open spec fn overlay_invocation(raw: Seq<Seq<char>>) -> Option<Seq<Seq<char>>> {
    if raw.len() > 1 && raw[1] == INTERNAL_OVERLAY_MODE_ARG@ {
        Some(seq!["parakeet-overlay"@] + raw.skip(2))
    } else {
        None
    }
}

/// The arguments of the overlay process, if the program was asked to be it.
pub fn internal_overlay_args(raw_args: &Vec<String>) -> (r: Option<Vec<String>>)
    ensures
        match r {
            Some(args) => overlay_invocation(texts(raw_args@)) == Some(texts(args@)),
            None => overlay_invocation(texts(raw_args@)) is None,
        },
{
    if raw_args.len() < 2 {
        return None;
    }
    assert(texts(raw_args@)[1] == raw_args@[1]@);
    if !same(raw_args[1].as_str(), INTERNAL_OVERLAY_MODE_ARG) {
        return None;
    }
    let mut args: Vec<String> = Vec::new();
    args.push("parakeet-overlay".to_owned());
    let mut i: usize = 2;
    assert(texts(args@) =~= seq!["parakeet-overlay"@] + texts(raw_args@).skip(2).take(0));
    while i < raw_args.len()
        invariant
            2 <= i <= raw_args@.len(),
            texts(args@) == seq!["parakeet-overlay"@] + texts(raw_args@).skip(2).take(i - 2),
        decreases raw_args@.len() - i,
    {
        let ghost before = texts(args@);
        args.push(raw_args[i].as_str().to_owned());
        proof {
            assert(texts(args@) =~= before.push(raw_args@[i as int]@));
            assert(texts(raw_args@).skip(2).take(i - 1) =~= texts(raw_args@).skip(2).take(
                i - 2,
            ).push(raw_args@[i as int]@));
        }
        i = i + 1;
    }
    assert(texts(raw_args@).skip(2).take(i - 2) =~= texts(raw_args@).skip(2));
    Some(args)
}

/// At least one.
pub open spec fn one_at_least(n: u64) -> u64 {
    if n < 1 {
        1
    } else {
        n
    }
}

/// A number of seconds, one at least, in milliseconds; the longest time where that is too much.
pub fn timeout_ms(seconds: u64) -> (r: u64)
    ensures
        r == if one_at_least(seconds) * 1000 <= u64::MAX {
            (one_at_least(seconds) * 1000) as u64
        } else {
            u64::MAX
        },
{
    let s: u64 = if seconds < 1 {
        1
    } else {
        seconds
    };
    if s > u64::MAX / 1000 {
        u64::MAX
    } else {
        s * 1000
    }
}

/// How many test texts are injected: one at least.
pub fn test_attempts(count: u32) -> (r: u32)
    ensures
        r == if count < 1 {
            1
        } else {
            count
        },
{
    if count < 1 {
        1
    } else {
        count
    }
}

/// The text of a test: the prefix alone where it is the only one, else with its number.
pub open spec fn test_text(prefix: Seq<char>, index: u32, total: u32) -> Seq<char> {
    if total == 1 {
        prefix
    } else {
        prefix + " "@ + decimal2((index + 1) as nat)
    }
}

/// The text of a test.
pub fn test_payload(prefix: &str, index: u32, total: u32) -> (r: String)
    requires
        index < total,
    ensures
        r@ == test_text(prefix@, index, total),
{
    if total == 1 {
        prefix.to_owned()
    } else {
        cat3(prefix, " ", print_two_digits(index as u64 + 1).as_str())
    }
}

/// Whether there is a pause after a test: not after the last one.
pub fn pause_after_test(index: u32, total: u32, interval_ms: u64) -> (r: bool)
    requires
        index < total,
    ensures
        r == (index + 1 < total && interval_ms > 0),
{
    index + 1 < total && interval_ms > 0
}

/// The overlay process gets every argument behind its mark, in order, and only where the mark is
/// the first argument.
pub proof fn law_overlay_gets_its_arguments(raw: Seq<Seq<char>>, i: int)
    ensures
        raw.len() >= 2 && raw[1] == "__overlay-renderer"@ ==> (overlay_invocation(raw) matches Some(
            args,
        ) && args.len() == raw.len() - 1 && args[0] == "parakeet-overlay"@ && (1 <= i < args.len()
            ==> args[i] == raw[i + 1])),
        raw.len() < 2 || raw[1] != "__overlay-renderer"@ ==> overlay_invocation(raw) is None,
{
}

/// The only test text is the prefix; of several each has its number behind it, from one on.
pub proof fn law_test_texts_are_numbered(prefix: Seq<char>, index: u32, total: u32)
    ensures
        total == 1 ==> test_text(prefix, index, total) == prefix,
        total > 1 && index < 9 ==> test_text(prefix, index, total) == prefix + " "@ + seq![
            '0',
            crate::text::digit(index + 1),
        ],
        total > 1 && 9 <= index < u32::MAX ==> test_text(prefix, index, total) == prefix + " "@
            + crate::text::decimal((index + 1) as nat),
{
}

/// At least one is asked for, and otherwise what was said.
pub proof fn law_one_at_least(n: u64)
    ensures
        one_at_least(n) >= 1,
        n >= 1 ==> one_at_least(n) == n,
        one_at_least(0) == 1,
{
}

/// The client runs just where nothing else was asked for; an injection asked for by the client
/// itself goes before all else, and a test goes before a demonstration.
pub proof fn law_launch_does_what_was_asked(once: bool, test: bool, demo: bool, r: LaunchMode)
    requires
        call_ensures(launch_mode, (once, test, demo), r),
    ensures
        r is InjectOnce <==> once,
        r is TestInjection <==> test && !once,
        r is Demo <==> demo && !once && !test,
        r is Client <==> !once && !test && !demo,
{
}

/// There is a pause between two attempts, where one is wanted, and none after the last.
pub proof fn law_pauses_lie_between_attempts(index: u32, total: u32, interval_ms: u64, r: bool)
    requires
        index < total,
        call_ensures(pause_after_test, (index, total, interval_ms), r),
    ensures
        index == total - 1 ==> !r,
        interval_ms == 0 ==> !r,
        index < total - 1 && interval_ms > 0 ==> r,
{
}

} // verus!
