//! Which of the two processes this one is, read from its startup arguments.

use vstd::prelude::*;
use vstd::std_specs::iter::IteratorSpec;

verus! {

/// The character that parts the marker from the channel name in the
/// argument handed to the supervisor.
pub const SEPARATOR: char = '=';

/// The part a process plays.
#[derive(Clone, Debug, PartialEq, Eq)]
pub enum Role {
    /// The application that is watched for crashes.
    Monitored,
    /// The companion that waits on the named channel for a crash.
    Supervisor(String),
}

/// The mathematical value of a [`Role`].
pub enum RoleView {
    Monitored,
    Supervisor(Seq<char>),
}

impl View for Role {
    type V = RoleView;

    open spec fn view(&self) -> RoleView {
        match self {
            Role::Monitored => RoleView::Monitored,
            Role::Supervisor(name) => RoleView::Supervisor(name@),
        }
    }
}

/// Whether `arg` begins with `marker`.
pub open spec fn is_marked(arg: Seq<char>, marker: Seq<char>) -> bool {
    marker.is_prefix_of(arg)
}

/// Whether some argument begins with `marker`.
pub open spec fn has_marked(args: Seq<Seq<char>>, marker: Seq<char>) -> bool {
    exists|i: int| 0 <= i < args.len() && is_marked(#[trigger] args[i], marker)
}

/// Where the part of `text` after its last `sep` begins: 0 where `sep`
/// does not occur.
pub open spec fn tail_start(text: Seq<char>, sep: char) -> int
    decreases text.len(),
{
    if text.len() == 0 {
        0
    } else if text.last() == sep {
        text.len() as int
    } else {
        tail_start(text.drop_last(), sep)
    }
}

/// The part of `text` after its last `sep`: all of `text` where `sep` does
/// not occur.
pub open spec fn after_last(text: Seq<char>, sep: char) -> Seq<char> {
    text.subrange(tail_start(text, sep), text.len() as int)
}

/// The channel name that a marked argument carries.
pub open spec fn channel_of(arg: Seq<char>) -> Seq<char> {
    after_last(arg, SEPARATOR)
}

/// The role that the arguments from index `from` on select.
pub open spec fn select_from(args: Seq<Seq<char>>, marker: Seq<char>, from: int) -> RoleView
    decreases args.len() - from,
{
    if from < 0 || from >= args.len() {
        RoleView::Monitored
    } else if is_marked(args[from], marker) {
        RoleView::Supervisor(channel_of(args[from]))
    } else {
        select_from(args, marker, from + 1)
    }
}

/// The role that `args` select: that of a supervisor, on the channel that
/// the first argument beginning with `marker` carries, or else that of the
/// monitored application.
pub open spec fn select(args: Seq<Seq<char>>, marker: Seq<char>) -> RoleView {
    select_from(args, marker, 0)
}

/// The argument that makes a process a supervisor on the channel `name`.
pub open spec fn marked_argument(marker: Seq<char>, name: Seq<char>) -> Seq<char> {
    marker + seq![SEPARATOR] + name
}

/// Whether `text` begins with `prefix`.
pub fn starts_with(text: &str, prefix: &str) -> (found: bool)
    ensures
        found == prefix@.is_prefix_of(text@),
{
    broadcast use vstd::string::group_string_axioms;

    let mut rest = text.chars();
    let mut wanted = prefix.chars();
    let ghost mut done: int = 0;
    loop
        invariant
            0 <= done <= text@.len(),
            done <= prefix@.len(),
            rest.remaining() == text@.skip(done),
            wanted.remaining() == prefix@.skip(done),
            text@.take(done) == prefix@.take(done),
        decreases prefix@.len() - done,
    {
        match wanted.next() {
            None => {
                return true;
            },
            Some(p) => {
                match rest.next() {
                    None => {
                        return false;
                    },
                    Some(t) => {
                        if p != t {
                            proof {
                                if prefix@.len() <= text@.len() {
                                    assert(text@.subrange(0, prefix@.len() as int)[done]
                                        == text@[done]);
                                }
                            }
                            return false;
                        }
                        proof {
                            done = done + 1;
                        }
                    },
                }
            },
        }
    }
}

/// The channel name that the marked argument `arg` carries.
pub fn channel_name(arg: &str) -> (name: String)
    ensures
        name@ == channel_of(arg@),
{
    broadcast use vstd::string::group_string_axioms;

    let total = arg.unicode_len();
    let mut rest = arg.chars();
    let mut seen: usize = 0;
    let mut start: usize = 0;
    loop
        invariant
            total == arg@.len(),
            start <= seen <= total,
            rest.remaining() == arg@.skip(seen as int),
            start == tail_start(arg@.take(seen as int), SEPARATOR),
        decreases total - seen,
    {
        match rest.next() {
            None => {
                assert(arg@.take(seen as int) == arg@);
                return arg.substring_char(start, total).to_owned();
            },
            Some(c) => {
                assert(arg@.take(seen + 1).drop_last() == arg@.take(seen as int));
                seen = seen + 1;
                if c == SEPARATOR {
                    start = seen;
                }
            },
        }
    }
}

/// Whether some argument of `args` begins with `marker`.
pub fn is_supervisor(args: &[String], marker: &str) -> (found: bool)
    ensures
        found == has_marked(args.deep_view(), marker@),
{
    let mut i: usize = 0;
    while i < args.len()
        invariant
            i <= args.len(),
            forall|j: int| 0 <= j < i ==> !is_marked(#[trigger] args.deep_view()[j], marker@),
        decreases args.len() - i,
    {
        if starts_with(args[i].as_str(), marker) {
            assert(is_marked(args.deep_view()[i as int], marker@));
            return true;
        }
        i = i + 1;
    }
    false
}

/// Decides the role of a process from its startup arguments: the first
/// argument that begins with `marker` makes it a supervisor, on the channel
/// named after that argument's last separator.
pub fn select_role(args: &[String], marker: &str) -> (role: Role)
    ensures
        role@ == select(args.deep_view(), marker@),
{
    let mut i: usize = 0;
    while i < args.len()
        invariant
            i <= args.len(),
            select(args.deep_view(), marker@) == select_from(args.deep_view(), marker@, i as int),
        decreases args.len() - i,
    {
        if starts_with(args[i].as_str(), marker) {
            return Role::Supervisor(channel_name(args[i].as_str()));
        }
        i = i + 1;
    }
    Role::Monitored
}

/// The part after the last separator holds no separator, and begins either
/// at the start of the text or right after a separator.
pub proof fn lemma_after_last(text: Seq<char>, sep: char)
    ensures
        0 <= tail_start(text, sep) <= text.len(),
        !after_last(text, sep).contains(sep),
        tail_start(text, sep) == 0 || text[tail_start(text, sep) - 1] == sep,
        tail_start(text, sep) == 0 ==> !text.contains(sep),
    decreases text.len(),
{
    if text.len() > 0 && text.last() != sep {
        let init = text.drop_last();
        lemma_after_last(init, sep);
        let start = tail_start(text, sep);
        assert forall|i: int| 0 <= i < after_last(text, sep).len() implies after_last(text, sep)[i]
            != sep by {
            if i < after_last(init, sep).len() {
                assert(after_last(init, sep).contains(after_last(init, sep)[i]));
            }
        }
        if start == 0 {
            assert forall|i: int| 0 <= i < text.len() implies text[i] != sep by {
                if i < init.len() {
                    assert(init.contains(init[i]));
                }
            }
        }
    }
}

/// A text that ends in a separator followed by `name`, where `name` holds no
/// separator, has `name` as the part after its last separator.
pub proof fn lemma_after_last_of_joined(head: Seq<char>, sep: char, name: Seq<char>)
    requires
        !name.contains(sep),
    ensures
        after_last(head + seq![sep] + name, sep) == name,
    decreases name.len(),
{
    if name.len() > 0 {
        let text = head + seq![sep] + name;
        let init = name.drop_last();
        assert(text.drop_last() == head + seq![sep] + init);
        assert(!init.contains(sep));
        lemma_after_last_of_joined(head, sep, init);
        lemma_after_last(text.drop_last(), sep);
    }
}

/// The arguments select the supervisor's role exactly when one of them
/// begins with the marker.
pub proof fn lemma_select_matches_marked(args: Seq<Seq<char>>, marker: Seq<char>)
    ensures
        select(args, marker) is Supervisor <==> has_marked(args, marker),
{
    lemma_select_from(args, marker, 0);
}

/// From index `from` on, the arguments select the supervisor's role exactly
/// when one of them begins with the marker, and then on the channel of the
/// first that does.
pub proof fn lemma_select_from(args: Seq<Seq<char>>, marker: Seq<char>, from: int)
    requires
        0 <= from,
    ensures
        select_from(args, marker, from) is Supervisor <==> exists|i: int|
            from <= i < args.len() && is_marked(#[trigger] args[i], marker),
        forall|i: int|
            from <= i < args.len() && is_marked(#[trigger] args[i], marker) && (forall|j: int|
                from <= j < i ==> !is_marked(#[trigger] args[j], marker)) ==> select_from(
                args,
                marker,
                from,
            ) == RoleView::Supervisor(channel_of(args[i])),
    decreases args.len() - from,
{
    if from < args.len() && !is_marked(args[from], marker) {
        lemma_select_from(args, marker, from + 1);
    }
}

/// An argument list that holds the marker, the separator and any text `x`
/// as one argument selects the supervisor's role.
pub proof fn lemma_marked_argument_selects_supervisor(
    args: Seq<Seq<char>>,
    marker: Seq<char>,
    i: int,
    x: Seq<char>,
)
    requires
        0 <= i < args.len(),
        args[i] == marked_argument(marker, x),
    ensures
        has_marked(args, marker),
        select(args, marker) is Supervisor,
{
    lemma_select_matches_marked(args, marker);
}

/// An argument list in which no argument is the marker, the separator and
/// some text selects the monitored role, provided that none of its
/// arguments begins with the marker alone, without the separator after it.
pub proof fn lemma_unmarked_arguments_select_monitored(args: Seq<Seq<char>>, marker: Seq<char>)
    requires
        forall|i: int, x: Seq<char>|
            0 <= i < args.len() ==> #[trigger] args[i] != #[trigger] marked_argument(marker, x),
        forall|i: int|
            0 <= i < args.len() && is_marked(#[trigger] args[i], marker) ==> is_marked(
                args[i],
                marker + seq![SEPARATOR],
            ),
    ensures
        !has_marked(args, marker),
        select(args, marker) is Monitored,
{
    assert forall|i: int| 0 <= i < args.len() implies !is_marked(#[trigger] args[i], marker) by {
        if is_marked(args[i], marker) {
            let head = marker + seq![SEPARATOR];
            let x = args[i].subrange(head.len() as int, args[i].len() as int);
            assert(args[i] == marked_argument(marker, x));
        }
    }
    lemma_select_matches_marked(args, marker);
}

/// The supervisor reads back the channel name that the monitored process
/// put into the marked argument: where that argument is the first to begin
/// with the marker and the name holds no separator, the arguments select
/// the supervisor's role on exactly that channel.
pub proof fn lemma_supervisor_reads_channel(
    args: Seq<Seq<char>>,
    marker: Seq<char>,
    i: int,
    name: Seq<char>,
)
    requires
        0 <= i < args.len(),
        args[i] == marked_argument(marker, name),
        !name.contains(SEPARATOR),
        forall|j: int| 0 <= j < i ==> !is_marked(#[trigger] args[j], marker),
    ensures
        select(args, marker) == RoleView::Supervisor(name),
{
    lemma_select_from(args, marker, 0);
    lemma_after_last_of_joined(marker, SEPARATOR, name);
}

} // verus!
