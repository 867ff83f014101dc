//! Information about the running bot: shard latency and the command that
//! measures its memory.

use vstd::prelude::*;
use crate::text::{
    all_digits, chars_of, decimal, digits_value, lemma_decimal_reads_back, push_decimal,
};

verus! {

/// The part of a path after its last `/`, or the whole path when it has none.
pub open spec fn last_segment(path: Seq<char>) -> Seq<char>
    decreases path.len(),
{
    if path.len() == 0 {
        path
    } else if path.last() == '/' {
        Seq::empty()
    } else {
        last_segment(path.drop_last()).push(path.last())
    }
}

/// How a shard's latency is shown: `<n>ms`, or `?ms` when it is not known.
pub open spec fn latency_text(latency_ms: Option<u128>) -> Seq<char> {
    match latency_ms {
        Some(ms) => decimal(ms as nat) + "ms"@,
        None => "?ms"@,
    }
}

/// The shell command that sums the memory mapped by the process `pid` of the
/// executable `executable`, in kilobytes.
pub open spec fn memory_probe_text(pid: u32, executable: Seq<char>) -> Seq<char> {
    "pmap "@ + decimal(pid as nat) + " | grep "@ + executable
        + " | awk 'NR>1 {sum+=substr($2, 1, length($2)-1)} END {print sum}'"@
}

/// How a shard's latency is shown.
pub fn latency_label(latency_ms: Option<u128>) -> (label: String)
    ensures
        label@ == latency_text(latency_ms),
        latency_ms matches Some(ms) ==> label@ == decimal(ms as nat) + "ms"@,
        latency_ms is None ==> label@ == "?ms"@,
{
    match latency_ms {
        Some(ms) => {
            let mut label = String::new();
            push_decimal(&mut label, ms);
            label.append("ms");
            label
        },
        None => String::from_str("?ms"),
    }
}

/// The name of an executable: the part of its path after the last `/`.
pub fn executable_name(path: &str) -> (name: String)
    ensures
        name@ == last_segment(path@),
{
    let chars = chars_of(path);
    let n = chars.len();
    let mut start = n;
    assert(path@.take(n as int) =~= path@);
    while start > 0 && chars[start - 1] != '/'
        invariant
            n == path@.len(),
            chars@ == path@,
            start <= n,
            last_segment(path@) == last_segment(path@.take(start as int)) + path@.subrange(
                start as int,
                n as int,
            ),
        decreases start,
    {
        let ghost prefix = path@.take(start as int);
        assert(prefix.drop_last() =~= path@.take(start - 1));
        assert(path@.subrange(start - 1, n as int) =~= seq![path@[start - 1]] + path@.subrange(
            start as int,
            n as int,
        ));
        start = start - 1;
        assert(last_segment(path@.take(start as int)) + path@.subrange(start as int, n as int)
            =~= last_segment(prefix) + path@.subrange((start + 1) as int, n as int));
    }
    let tail = path.substring_char(start, n);
    String::from_str(tail)
}

/// The shell command that measures the bot's memory.
pub fn memory_probe_command(pid: u32, executable: &str) -> (command: String)
    ensures
        command@ == memory_probe_text(pid, executable@),
        command@ == "pmap "@ + decimal(pid as nat) + " | grep "@ + executable@
            + " | awk 'NR>1 {sum+=substr($2, 1, length($2)-1)} END {print sum}'"@,
{
    let mut command = String::from_str("pmap ");
    push_decimal(&mut command, pid as u128);
    command.append(" | grep ");
    command.append(executable);
    command.append(" | awk 'NR>1 {sum+=substr($2, 1, length($2)-1)} END {print sum}'");
    command
}

/// A known latency is shown as the digits of its value in milliseconds, read
/// back exactly, followed by `ms`.
pub proof fn lemma_latency_reads_back(ms: u128)
    ensures
        ({
            let t = latency_text(Some(ms));
            &&& t.len() >= 3
            &&& t.skip(t.len() - 2) == "ms"@
            &&& all_digits(t.take(t.len() - 2))
            &&& digits_value(t.take(t.len() - 2)) == ms
        }),
{
    reveal_strlit("ms");
    lemma_decimal_reads_back(ms as nat);
    let t = latency_text(Some(ms));
    let d = decimal(ms as nat);
    assert(t.take(t.len() - 2) =~= d);
    assert(t.skip(t.len() - 2) =~= "ms"@);
}

/// The memory probe names the process it was given: after `pmap ` come the
/// digits of `pid`, read back exactly, then ` | grep ` and the executable.
pub proof fn lemma_memory_probe_names_process(pid: u32, executable: Seq<char>)
    ensures
        ({
            let t = memory_probe_text(pid, executable);
            let k = decimal(pid as nat).len() as int;
            &&& t.take(5) == "pmap "@
            &&& all_digits(t.subrange(5, 5 + k))
            &&& digits_value(t.subrange(5, 5 + k)) == pid
            &&& t.subrange(5 + k, 13 + k) == " | grep "@
            &&& t.subrange(13 + k, 13 + k + executable.len()) == executable
        }),
{
    reveal_strlit("pmap ");
    reveal_strlit(" | grep ");
    lemma_decimal_reads_back(pid as nat);
    let t = memory_probe_text(pid, executable);
    let d = decimal(pid as nat);
    let k = d.len() as int;
    assert(t.take(5) =~= "pmap "@);
    assert(t.subrange(5, 5 + k) =~= d);
    assert(t.subrange(5 + k, 13 + k) =~= " | grep "@);
    assert(t.subrange(13 + k, 13 + k + executable.len()) =~= executable);
}

/// The name of an executable holds no `/` and ends its path; when the path has
/// a `/`, the name starts right after the last one.
pub proof fn lemma_last_segment(path: Seq<char>)
    ensures
        ({
            let name = last_segment(path);
            &&& name.len() <= path.len()
            &&& path.skip(path.len() - name.len()) == name
            &&& forall|i: int| 0 <= i < name.len() ==> #[trigger] name[i] != '/'
            &&& name.len() < path.len() ==> path[path.len() - name.len() - 1] == '/'
        }),
    decreases path.len(),
{
    if path.len() > 0 && path.last() != '/' {
        lemma_last_segment(path.drop_last());
        let prev = last_segment(path.drop_last());
        let name = last_segment(path);
        assert(name == prev.push(path.last()));
        assert(path.skip(path.len() - name.len()) =~= path.drop_last().skip(
            path.drop_last().len() - prev.len(),
        ).push(path.last()));
        assert forall|i: int| 0 <= i < name.len() implies #[trigger] name[i] != '/' by {
            if i < prev.len() {
                assert(name[i] == prev[i]);
            }
        }
        if name.len() < path.len() {
            assert(path[path.len() - name.len() - 1] == path.drop_last()[path.drop_last().len()
                - prev.len() - 1]);
        }
    } else if path.len() > 0 {
        assert(path.skip(path.len() as int) =~= Seq::<char>::empty());
    } else {
        assert(path.skip(0) =~= path);
    }
}

} // verus!
