//! The topic under which a process is published.

use crate::text::{chars_of, has_prefix, starts_with_chars};
use vstd::prelude::*;

verus! {

/// The topic for an optional explicit topic, an executable and its arguments:
/// the explicit topic when given; else, for an executable whose name starts
/// with "python" and that has arguments, the first argument (the script);
/// else the executable itself.
pub open spec fn topic_for(topic: Option<Seq<char>>, executable: Seq<char>, child_args: Seq<Seq<char>>) -> Seq<
    char,
> {
    match topic {
        Some(t) => t,
        None => if has_prefix(executable, "python"@) && child_args.len() > 0 {
            child_args[0]
        } else {
            executable
        },
    }
}

/// Resolves the topic name from the command line.
pub fn resolve_topic(topic: Option<String>, executable: &str, child_args: &[String]) -> (r: String)
    ensures
        r@ == topic_for(
            match topic {
                Some(t) => Some(t@),
                None => None,
            },
            executable@,
            child_args@.map_values(|a: String| a@),
        ),
        topic is Some ==> r@ == topic->0@,
        topic is None && executable@.len() >= 6 && executable@.subrange(0, 6) == "python"@
            && child_args@.len() > 0 ==> r@ == child_args@[0]@,
        topic is None && !(executable@.len() >= 6 && executable@.subrange(0, 6) == "python"@
            && child_args@.len() > 0) ==> r@ == executable@,
{
    proof {
        let given: Option<Seq<char>> = if topic is Some {
            Some(topic->0@)
        } else {
            None
        };
        law_topic_choice(given, executable@, child_args@.map_values(|a: String| a@));
    }
    match topic {
        Some(t) => t,
        None => {
            if starts_with_chars(&chars_of(executable), &chars_of("python")) && child_args.len() > 0 {
                child_args[0].clone()
            } else {
                executable.to_owned()
            }
        },
    }
}


/// An explicit topic always wins. Without one, an executable whose name
/// starts with "python" (the bare name "python" too) and that has at least
/// one argument is published under its first argument; any other executable
/// under its own name.
pub proof fn law_topic_choice(topic: Option<Seq<char>>, executable: Seq<char>, child_args: Seq<Seq<char>>)
    ensures
        topic is Some ==> topic_for(topic, executable, child_args) == topic->0,
        topic is None && executable.len() >= 6 && executable.subrange(0, 6) == "python"@
            && child_args.len() > 0 ==> topic_for(topic, executable, child_args) == child_args[0],
        topic is None && !(executable.len() >= 6 && executable.subrange(0, 6) == "python"@
            && child_args.len() > 0) ==> topic_for(topic, executable, child_args) == executable,
{
    reveal_strlit("python");
}

} // verus!
