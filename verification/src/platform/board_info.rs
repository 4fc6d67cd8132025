//! Board information helpers: the `/etc/os-release` parser, `/proc/cpuinfo` summaries and the
//! disk usage arithmetic behind the storage figures.
use vstd::prelude::*;

use crate::text::{chars_eq, chars_to_string, str_to_chars, trim, trim_chars};

verus! {

/// `str::replace` of the two-character pattern `a b` by `c`: matches are taken left to
/// right and do not overlap.
pub open spec fn replace_pair(s: Seq<char>, a: char, b: char, c: char) -> Seq<char>
    decreases s.len(),
{
    if s.len() == 0 {
        s
    } else if s.len() >= 2 && s[0] == a && s[1] == b {
        seq![c] + replace_pair(s.skip(2), a, b, c)
    } else {
        seq![s[0]] + replace_pair(s.skip(1), a, b, c)
    }
}

/// An os-release value: trimmed; when it is wrapped in matching single or double quotes,
/// the quotes are dropped and the escapes `\"` and `\n` are resolved, in that order.
pub open spec fn unquote(raw: Seq<char>) -> Seq<char> {
    let s = trim(raw);
    if s.len() >= 2 && (s[0] == '"' || s[0] == '\'') && s.last() == s[0] {
        replace_pair(replace_pair(s.subrange(1, s.len() - 1), '\\', '"', '"'), '\\', 'n', '\n')
    } else {
        s
    }
}

/// The key and value of one os-release line, or `None` for a blank line, a comment or a
/// line without `=`.
pub open spec fn os_release_entry(line: Seq<char>) -> Option<(Seq<char>, Seq<char>)> {
    let t = trim(line);
    if t.len() == 0 || t[0] == '#' {
        None
    } else {
        match t.index_of_first('=') {
            Some(e) => Some((trim(t.take(e)), unquote(t.skip(e + 1)))),
            None => None,
        }
    }
}

/// The finished lines and the line in progress after reading `s`.
pub open spec fn split_acc(s: Seq<char>) -> (Seq<Seq<char>>, Seq<char>)
    decreases s.len(),
{
    if s.len() == 0 {
        (Seq::empty(), Seq::empty())
    } else {
        let (done, cur) = split_acc(s.drop_last());
        if s.last() == '\n' {
            (done.push(cur), Seq::empty())
        } else {
            (done, cur.push(s.last()))
        }
    }
}

/// The text cut at each `\n` (a last, empty piece after a final newline included; blank
/// lines carry no entry, so it changes nothing).
pub open spec fn os_lines(s: Seq<char>) -> Seq<Seq<char>> {
    split_acc(s).0.push(split_acc(s).1)
}

/// The value of the last line that sets `key`.
pub open spec fn last_value(lines: Seq<Seq<char>>, key: Seq<char>) -> Option<Seq<char>>
    decreases lines.len(),
{
    if lines.len() == 0 {
        None
    } else {
        let e = os_release_entry(lines.last());
        if e is Some && e.unwrap().0 == key {
            Some(e.unwrap().1)
        } else {
            last_value(lines.drop_last(), key)
        }
    }
}

/// The display name when `PRETTY_NAME` is missing: `NAME VERSION` (when VERSION is not
/// empty), else `NAME VERSION_ID`, else `NAME`, else `ID`, else empty.
pub open spec fn pretty_fallback(
    name: Option<Seq<char>>,
    version: Option<Seq<char>>,
    version_id: Option<Seq<char>>,
    id: Option<Seq<char>>,
) -> Seq<char> {
    match name {
        Some(n) => if version is Some && version.unwrap().len() > 0 {
            n + seq![' '] + version.unwrap()
        } else if version_id is Some {
            n + seq![' '] + version_id.unwrap()
        } else {
            n
        },
        None => match id {
            Some(i) => i,
            None => Seq::empty(),
        },
    }
}

/// The distribution's display name that an os-release text gives.
pub open spec fn distro_pretty(lines: Seq<Seq<char>>) -> Seq<char> {
    match last_value(lines, "PRETTY_NAME"@) {
        Some(p) => p,
        None => pretty_fallback(
            last_value(lines, "NAME"@),
            last_value(lines, "VERSION"@),
            last_value(lines, "VERSION_ID"@),
            last_value(lines, "ID"@),
        ),
    }
}

/// The distribution id that an os-release text gives (empty when there is none).
pub open spec fn distro_id(lines: Seq<Seq<char>>) -> Seq<char> {
    match last_value(lines, "ID"@) {
        Some(i) => i,
        None => Seq::empty(),
    }
}

fn copy_range(v: &Vec<char>, start: usize, end: usize) -> (r: Vec<char>)
    requires
        start <= end <= v.len(),
    ensures
        r@ == v@.subrange(start as int, end as int),
{
    let mut r: Vec<char> = Vec::new();
    let mut i: usize = start;
    while i < end
        invariant
            start <= i <= end <= v.len(),
            r@ == v@.subrange(start as int, i as int),
        decreases end - i,
    {
        r.push(v[i]);
        assert(v@.subrange(start as int, i as int + 1) == v@.subrange(start as int, i as int).push(v@[i as int]));
        i = i + 1;
    }
    r
}

proof fn lemma_replace_pair_step(s: Seq<char>, i: int, a: char, b: char, c: char)
    requires
        0 <= i < s.len(),
    ensures
        (i + 1 < s.len() && s[i] == a && s[i + 1] == b) ==> replace_pair(s.skip(i), a, b, c) == seq![c] + replace_pair(s.skip(i + 2), a, b, c),
        !(i + 1 < s.len() && s[i] == a && s[i + 1] == b) ==> replace_pair(s.skip(i), a, b, c) == seq![s[i]] + replace_pair(s.skip(i + 1), a, b, c),
{
    let t = s.skip(i);
    assert(t[0] == s[i]);
    if t.len() >= 2 {
        assert(t[1] == s[i + 1]);
    }
    assert(t.skip(2) =~= s.skip(i + 2) || t.len() < 2);
    assert(t.skip(1) =~= s.skip(i + 1));
    if i + 1 < s.len() {
        assert(t.skip(2) =~= s.skip(i + 2));
    }
}

/// Replaces each `a b` by `c`, left to right.
fn replace_pair_chars(s: &Vec<char>, a: char, b: char, c: char) -> (r: Vec<char>)
    ensures
        r@ == replace_pair(s@, a, b, c),
{
    let mut r: Vec<char> = Vec::new();
    let mut i: usize = 0;
    assert(s@.skip(0) =~= s@);
    assert(r@ + replace_pair(s@, a, b, c) =~= replace_pair(s@, a, b, c));
    while i < s.len()
        invariant
            i <= s.len(),
            r@ + replace_pair(s@.skip(i as int), a, b, c) == replace_pair(s@, a, b, c),
        decreases s.len() - i,
    {
        proof {
            lemma_replace_pair_step(s@, i as int, a, b, c);
        }
        if i + 1 < s.len() && s[i] == a && s[i + 1] == b {
            let ghost r0 = r@;
            r.push(c);
            assert(r@ + replace_pair(s@.skip(i as int + 2), a, b, c) == r0 + (seq![c] + replace_pair(s@.skip(i as int + 2), a, b, c)));
            i = i + 2;
        } else {
            let ghost r0 = r@;
            r.push(s[i]);
            assert(r@ + replace_pair(s@.skip(i as int + 1), a, b, c) == r0 + (seq![s@[i as int]] + replace_pair(s@.skip(i as int + 1), a, b, c)));
            i = i + 1;
        }
    }
    assert(s@.skip(i as int) =~= Seq::<char>::empty());
    assert(r@ + Seq::<char>::empty() == r@);
    r
}

/// Strips the quotes of an os-release value and resolves its escapes.
pub fn unquote_os_release_value(raw: &Vec<char>) -> (r: Vec<char>)
    ensures
        r@ == unquote(raw@),
{
    let s = trim_chars(raw);
    let n = s.len();
    if n >= 2 && (s[0] == '"' || s[0] == '\'') && s[n - 1] == s[0] {
        let inner = copy_range(&s, 1, n - 1);
        let step = replace_pair_chars(&inner, '\\', '"', '"');
        replace_pair_chars(&step, '\\', 'n', '\n')
    } else {
        s
    }
}

/// The first index of `c` in `v`, if any.
fn find_char(v: &Vec<char>, c: char) -> (r: Option<usize>)
    ensures
        r == (match v@.index_of_first(c) {
            Some(i) => Some(i as usize),
            None => None::<usize>,
        }),
        r matches Some(i) ==> i < v.len() && v@[i as int] == c,
{
    let mut i: usize = 0;
    while i < v.len()
        invariant
            i <= v.len(),
            forall|j: int| 0 <= j < i ==> v@[j] != c,
        decreases v.len() - i,
    {
        if v[i] == c {
            proof {
                v@.index_of_first_ensures(c);
                if v@.index_of_first(c) is Some {
                    let k = v@.index_of_first(c).unwrap();
                    assert(k == i) by {
                        if k < i {
                            assert(v@[k] != c);
                        } else if k > i {
                            assert(v@[i as int] != c);
                        }
                    }
                } else {
                    assert(v@.contains(c)) by {
                        assert(v@[i as int] == c);
                    }
                }
            }
            return Some(i);
        }
        i = i + 1;
    }
    proof {
        v@.index_of_first_ensures(c);
        if v@.index_of_first(c) is Some {
            let k = v@.index_of_first(c).unwrap();
            assert(v@[k] != c);
        }
    }
    None
}

/// The key and value of one os-release line.
pub fn parse_os_release_line(line: &Vec<char>) -> (r: Option<(Vec<char>, Vec<char>)>)
    ensures
        r is Some <==> os_release_entry(line@) is Some,
        r matches Some(kv) ==> os_release_entry(line@) == Some((kv.0@, kv.1@)),
{
    let t = trim_chars(line);
    if t.len() == 0 || t[0] == '#' {
        return None;
    }
    proof {
        t@.index_of_first_ensures('=');
    }
    match find_char(&t, '=') {
        Some(e) => {
            let key_raw = copy_range(&t, 0, e);
            let val_raw = copy_range(&t, e + 1, t.len());
            assert(key_raw@ == t@.take(e as int));
            assert(val_raw@ == t@.skip(e as int + 1));
            let key = trim_chars(&key_raw);
            let val = unquote_os_release_value(&val_raw);
            Some((key, val))
        },
        None => None,
    }
}

struct OsReleaseFields {
    pretty: Option<Vec<char>>,
    name: Option<Vec<char>>,
    version: Option<Vec<char>>,
    version_id: Option<Vec<char>>,
    id: Option<Vec<char>>,
}

spec fn opt_view(o: Option<Vec<char>>) -> Option<Seq<char>> {
    match o {
        Some(v) => Some(v@),
        None => None,
    }
}

spec fn fields_match(f: OsReleaseFields, lines: Seq<Seq<char>>) -> bool {
    &&& opt_view(f.pretty) == last_value(lines, "PRETTY_NAME"@)
    &&& opt_view(f.name) == last_value(lines, "NAME"@)
    &&& opt_view(f.version) == last_value(lines, "VERSION"@)
    &&& opt_view(f.version_id) == last_value(lines, "VERSION_ID"@)
    &&& opt_view(f.id) == last_value(lines, "ID"@)
}

fn take_line(f: &mut OsReleaseFields, line: &Vec<char>, Ghost(done): Ghost<Seq<Seq<char>>>)
    requires
        fields_match(*old(f), done),
    ensures
        fields_match(*final(f), done.push(line@)),
{
    let ghost lines = done.push(line@);
    proof {
        reveal_strlit("PRETTY_NAME");
        reveal_strlit("NAME");
        reveal_strlit("VERSION");
        reveal_strlit("VERSION_ID");
        reveal_strlit("ID");
        assert("PRETTY_NAME"@.len() == 11);
        assert("NAME"@.len() == 4);
        assert("VERSION"@.len() == 7);
        assert("VERSION_ID"@.len() == 10);
        assert("ID"@.len() == 2);
        assert(lines.drop_last() == done);
        assert(lines.last() == line@);
    }
    if let Some((k, v)) = parse_os_release_line(line) {
        let pretty_key = str_to_chars("PRETTY_NAME");
        let name_key = str_to_chars("NAME");
        let version_key = str_to_chars("VERSION");
        let version_id_key = str_to_chars("VERSION_ID");
        let id_key = str_to_chars("ID");
        if chars_eq(&k, &pretty_key) {
            f.pretty = Some(v);
        } else if chars_eq(&k, &name_key) {
            f.name = Some(v);
        } else if chars_eq(&k, &version_key) {
            f.version = Some(v);
        } else if chars_eq(&k, &version_id_key) {
            f.version_id = Some(v);
        } else if chars_eq(&k, &id_key) {
            f.id = Some(v);
        }
    }
}

fn some_or_empty(o: Option<Vec<char>>) -> (r: Vec<char>)
    ensures
        r@ == (match opt_view(o) {
            Some(s) => s,
            None => Seq::<char>::empty(),
        }),
{
    match o {
        Some(v) => v,
        None => Vec::new(),
    }
}

fn join_space(a: Vec<char>, b: &Vec<char>) -> (r: Vec<char>)
    ensures
        r@ == a@ + seq![' '] + b@,
{
    let mut r = a;
    r.push(' ');
    crate::text::extend_chars(&mut r, b);
    r
}

/// Parses an os-release text into the display name and the id of the distribution.
pub fn linux_os_release_from_str(content: &str) -> (r: (String, String))
    ensures
        r.0@ == distro_pretty(os_lines(content@)),
        r.1@ == distro_id(os_lines(content@)),
{
    let chars = str_to_chars(content);
    let mut f = OsReleaseFields { pretty: None, name: None, version: None, version_id: None, id: None };
    let mut cur: Vec<char> = Vec::new();
    let ghost mut done: Seq<Seq<char>> = Seq::empty();
    let mut i: usize = 0;
    while i < chars.len()
        invariant
            i <= chars.len(),
            chars@ == content@,
            split_acc(chars@.take(i as int)) == (done, cur@),
            fields_match(f, done),
        decreases chars.len() - i,
    {
        let c = chars[i];
        assert(chars@.take(i as int + 1).drop_last() == chars@.take(i as int));
        if c == '\n' {
            take_line(&mut f, &cur, Ghost(done));
            proof {
                done = done.push(cur@);
            }
            cur = Vec::new();
        } else {
            cur.push(c);
        }
        i = i + 1;
    }
    assert(chars@.take(chars.len() as int) == content@);
    take_line(&mut f, &cur, Ghost(done));
    let ghost lines = done.push(cur@);
    assert(lines == os_lines(content@));
    let id_copy = match &f.id {
        Some(v) => Some(v.clone()),
        None => None,
    };
    let pretty = match f.pretty {
        Some(p) => p,
        None => match f.name {
            Some(n) => {
                let has_version = match &f.version {
                    Some(v) => v.len() > 0,
                    None => false,
                };
                if has_version {
                    let ver = some_or_empty(f.version);
                    join_space(n, &ver)
                } else {
                    match f.version_id {
                        Some(vid) => join_space(n, &vid),
                        None => n,
                    }
                }
            },
            None => some_or_empty(id_copy),
        },
    };
    let id = some_or_empty(f.id);
    (chars_to_string(&pretty), chars_to_string(&id))
}

/// `a * b`, or `u64::MAX` when the product does not fit (what `saturating_mul` gives).
pub open spec fn sat_mul(a: u64, b: u64) -> u64 {
    if a * b > u64::MAX { u64::MAX } else { (a * b) as u64 }
}

/// `a - b`, or 0 when `b` is larger (what `saturating_sub` gives).
pub open spec fn sat_sub(a: u64, b: u64) -> u64 {
    if a >= b { (a - b) as u64 } else { 0 }
}

fn saturating_mul_u64(a: u64, b: u64) -> (r: u64)
    ensures
        r == sat_mul(a, b),
{
    match a.checked_mul(b) {
        Some(p) => p,
        None => u64::MAX,
    }
}

/// Total, used and free bytes of a file system from its block count, available block
/// count and fragment size; products saturate, and used is total minus free, at least 0.
pub fn disk_usage_from_stats(blocks: u64, bavail: u64, frsize: u64) -> (r: (u64, u64, u64))
    ensures
        r.0 == sat_mul(blocks, frsize),
        r.2 == sat_mul(bavail, frsize),
        r.1 == sat_sub(r.0, r.2),
{
    let total = saturating_mul_u64(blocks, frsize);
    let free = saturating_mul_u64(bavail, frsize);
    let used = total.saturating_sub(free);
    (total, used, free)
}

/// Total and used bytes of the file system holding the state root, from its `statvfs`
/// figures (block count, available blocks, fragment size); `None` when they could not be
/// read.
pub fn host_state_root_usage(stats: Option<(u64, u64, u64)>) -> (r: Option<(usize, usize)>)
    ensures
        match stats {
            None => r is None,
            Some((blocks, bavail, frsize)) => r == Some((
                sat_mul(blocks, frsize) as usize,
                sat_sub(sat_mul(blocks, frsize), sat_mul(bavail, frsize)) as usize,
            )),
        },
{
    match stats {
        None => None,
        Some((blocks, bavail, frsize)) => {
            let (total, used, _free) = disk_usage_from_stats(blocks, bavail, frsize);
            Some((total as usize, used as usize))
        },
    }
}

/// Key and value of one `/proc/cpuinfo` line (both trimmed), or `None` without `:`.
pub open spec fn cpuinfo_entry(line: Seq<char>) -> Option<(Seq<char>, Seq<char>)> {
    match line.index_of_first(':') {
        Some(i) => Some((trim(line.take(i)), trim(line.skip(i + 1)))),
        None => None,
    }
}

/// The first non-empty value given for `key`.
pub open spec fn first_value(lines: Seq<Seq<char>>, key: Seq<char>) -> Option<Seq<char>>
    decreases lines.len(),
{
    if lines.len() == 0 {
        None
    } else {
        let earlier = first_value(lines.drop_last(), key);
        let e = cpuinfo_entry(lines.last());
        if earlier is Some {
            earlier
        } else if e is Some && e.unwrap().0 == key && e.unwrap().1.len() > 0 {
            Some(e.unwrap().1)
        } else {
            None
        }
    }
}

/// How many lines have the key `key`.
pub open spec fn key_count(lines: Seq<Seq<char>>, key: Seq<char>) -> nat
    decreases lines.len(),
{
    if lines.len() == 0 {
        0
    } else {
        let e = cpuinfo_entry(lines.last());
        key_count(lines.drop_last(), key) + if e is Some && e.unwrap().0 == key { 1nat } else { 0nat }
    }
}

/// `arch A, implementer I, part P`, with the parts that are present.
pub open spec fn cpu_parts(arch: Option<Seq<char>>, implementer: Option<Seq<char>>, part: Option<Seq<char>>) -> Seq<char> {
    let a = match arch {
        Some(x) => "arch "@ + x,
        None => Seq::empty(),
    };
    let b = match implementer {
        Some(x) => (if a.len() > 0 { a + ", "@ } else { a }) + "implementer "@ + x,
        None => a,
    };
    match part {
        Some(x) => (if b.len() > 0 { b + ", "@ } else { b }) + "part "@ + x,
        None => b,
    }
}

/// The CPU model a cpuinfo text names: `model name`, else `Model`, `Processor`, `Hardware`,
/// `cpu model`, else the architecture, implementer and part joined; `None` when none is
/// there (the device-tree model is then used).
pub open spec fn cpu_model_of(lines: Seq<Seq<char>>) -> Option<Seq<char>> {
    if first_value(lines, "model name"@) is Some {
        first_value(lines, "model name"@)
    } else if first_value(lines, "Model"@) is Some {
        first_value(lines, "Model"@)
    } else if first_value(lines, "Processor"@) is Some {
        first_value(lines, "Processor"@)
    } else if first_value(lines, "Hardware"@) is Some {
        first_value(lines, "Hardware"@)
    } else if first_value(lines, "cpu model"@) is Some {
        first_value(lines, "cpu model"@)
    } else if first_value(lines, "CPU architecture"@) is Some || first_value(lines, "CPU implementer"@) is Some
        || first_value(lines, "CPU part"@) is Some {
        Some(cpu_parts(
            first_value(lines, "CPU architecture"@),
            first_value(lines, "CPU implementer"@),
            first_value(lines, "CPU part"@),
        ))
    } else {
        None
    }
}

/// The key and value of one cpuinfo line.
fn parse_cpuinfo_line(line: &Vec<char>) -> (r: Option<(Vec<char>, Vec<char>)>)
    ensures
        r is Some <==> cpuinfo_entry(line@) is Some,
        r matches Some(kv) ==> cpuinfo_entry(line@) == Some((kv.0@, kv.1@)),
{
    proof {
        line@.index_of_first_ensures(':');
    }
    match find_char(line, ':') {
        Some(i) => {
            let key_raw = copy_range(line, 0, i);
            let val_raw = copy_range(line, i + 1, line.len());
            assert(key_raw@ == line@.take(i as int));
            assert(val_raw@ == line@.skip(i as int + 1));
            Some((trim_chars(&key_raw), trim_chars(&val_raw)))
        },
        None => None,
    }
}

struct CpuInfoFields {
    model_name: Option<Vec<char>>,
    model_dt: Option<Vec<char>>,
    processor: Option<Vec<char>>,
    hardware: Option<Vec<char>>,
    cpu_model: Option<Vec<char>>,
    cpu_arch: Option<Vec<char>>,
    cpu_impl: Option<Vec<char>>,
    cpu_part: Option<Vec<char>>,
}

spec fn cpu_fields_match(f: CpuInfoFields, lines: Seq<Seq<char>>) -> bool {
    &&& opt_view(f.model_name) == first_value(lines, "model name"@)
    &&& opt_view(f.model_dt) == first_value(lines, "Model"@)
    &&& opt_view(f.processor) == first_value(lines, "Processor"@)
    &&& opt_view(f.hardware) == first_value(lines, "Hardware"@)
    &&& opt_view(f.cpu_model) == first_value(lines, "cpu model"@)
    &&& opt_view(f.cpu_arch) == first_value(lines, "CPU architecture"@)
    &&& opt_view(f.cpu_impl) == first_value(lines, "CPU implementer"@)
    &&& opt_view(f.cpu_part) == first_value(lines, "CPU part"@)
}

proof fn lemma_cpuinfo_keys_distinct()
    ensures
        "model name"@ != "Model"@,
        "model name"@ != "Processor"@,
        "model name"@ != "Hardware"@,
        "model name"@ != "cpu model"@,
        "model name"@ != "CPU architecture"@,
        "model name"@ != "CPU implementer"@,
        "model name"@ != "CPU part"@,
        "Model"@ != "Processor"@,
        "Model"@ != "Hardware"@,
        "Model"@ != "cpu model"@,
        "Model"@ != "CPU architecture"@,
        "Model"@ != "CPU implementer"@,
        "Model"@ != "CPU part"@,
        "Processor"@ != "Hardware"@,
        "Processor"@ != "cpu model"@,
        "Processor"@ != "CPU architecture"@,
        "Processor"@ != "CPU implementer"@,
        "Processor"@ != "CPU part"@,
        "Hardware"@ != "cpu model"@,
        "Hardware"@ != "CPU architecture"@,
        "Hardware"@ != "CPU implementer"@,
        "Hardware"@ != "CPU part"@,
        "cpu model"@ != "CPU architecture"@,
        "cpu model"@ != "CPU implementer"@,
        "cpu model"@ != "CPU part"@,
        "CPU architecture"@ != "CPU implementer"@,
        "CPU architecture"@ != "CPU part"@,
        "CPU implementer"@ != "CPU part"@,
{
    reveal_strlit("model name");
    reveal_strlit("Model");
    reveal_strlit("Processor");
    reveal_strlit("Hardware");
    reveal_strlit("cpu model");
    reveal_strlit("CPU architecture");
    reveal_strlit("CPU implementer");
    reveal_strlit("CPU part");
    assert("model name"@.len() == 10);
    assert("Model"@.len() == 5);
    assert("Processor"@.len() == 9);
    assert("Hardware"@.len() == 8);
    assert("cpu model"@.len() == 9);
    assert("CPU architecture"@.len() == 16);
    assert("CPU implementer"@.len() == 15);
    assert("CPU part"@.len() == 8);
    assert("Processor"@[0] != "cpu model"@[0]);
    assert("Hardware"@[0] != "CPU part"@[0]);
}

/// Keeps the first non-empty value of `slot`'s key.
fn keep_first(slot: &mut Option<Vec<char>>, val: &Vec<char>)
    ensures
        opt_view(*final(slot)) == (if opt_view(*old(slot)) is None && val@.len() > 0 { Some(val@) } else { opt_view(*old(slot)) }),
{
    if slot.is_none() && val.len() > 0 {
        let copy = copy_range(val, 0, val.len());
        assert(copy@ == val@);
        *slot = Some(copy);
    }
}

fn take_cpuinfo_line(f: &mut CpuInfoFields, line: &Vec<char>, Ghost(done): Ghost<Seq<Seq<char>>>)
    requires
        cpu_fields_match(*old(f), done),
    ensures
        cpu_fields_match(*final(f), done.push(line@)),
{
    let ghost lines = done.push(line@);
    proof {
        lemma_cpuinfo_keys_distinct();
        assert(lines.drop_last() == done);
        assert(lines.last() == line@);
    }
    if let Some((k, v)) = parse_cpuinfo_line(line) {
        if chars_eq(&k, &str_to_chars("model name")) {
            keep_first(&mut f.model_name, &v);
        } else if chars_eq(&k, &str_to_chars("Model")) {
            keep_first(&mut f.model_dt, &v);
        } else if chars_eq(&k, &str_to_chars("Processor")) {
            keep_first(&mut f.processor, &v);
        } else if chars_eq(&k, &str_to_chars("Hardware")) {
            keep_first(&mut f.hardware, &v);
        } else if chars_eq(&k, &str_to_chars("cpu model")) {
            keep_first(&mut f.cpu_model, &v);
        } else if chars_eq(&k, &str_to_chars("CPU architecture")) {
            keep_first(&mut f.cpu_arch, &v);
        } else if chars_eq(&k, &str_to_chars("CPU implementer")) {
            keep_first(&mut f.cpu_impl, &v);
        } else if chars_eq(&k, &str_to_chars("CPU part")) {
            keep_first(&mut f.cpu_part, &v);
        }
    }
}

/// Appends `", "` when `out` is not empty, then `label` and `value`.
fn push_part(out: &mut Vec<char>, label: &str, value: &Vec<char>)
    ensures
        final(out)@ == (if old(out)@.len() > 0 { old(out)@ + ", "@ } else { old(out)@ }) + label@ + value@,
{
    if out.len() > 0 {
        crate::text::extend_with_str(out, ", ");
    }
    crate::text::extend_with_str(out, label);
    crate::text::extend_chars(out, value);
}

/// The CPU model that a `/proc/cpuinfo` text names, or `None` when it names none.
pub fn cpu_model_from_cpuinfo(content: &str) -> (r: Option<String>)
    ensures
        r is Some <==> cpu_model_of(os_lines(content@)) is Some,
        r matches Some(s) ==> cpu_model_of(os_lines(content@)) == Some(s@),
{
    let chars = str_to_chars(content);
    let mut f = CpuInfoFields {
        model_name: None,
        model_dt: None,
        processor: None,
        hardware: None,
        cpu_model: None,
        cpu_arch: None,
        cpu_impl: None,
        cpu_part: None,
    };
    let mut cur: Vec<char> = Vec::new();
    let ghost mut done: Seq<Seq<char>> = Seq::empty();
    let mut i: usize = 0;
    while i < chars.len()
        invariant
            i <= chars.len(),
            chars@ == content@,
            split_acc(chars@.take(i as int)) == (done, cur@),
            cpu_fields_match(f, done),
        decreases chars.len() - i,
    {
        let c = chars[i];
        assert(chars@.take(i as int + 1).drop_last() == chars@.take(i as int));
        if c == '\n' {
            take_cpuinfo_line(&mut f, &cur, Ghost(done));
            proof {
                done = done.push(cur@);
            }
            cur = Vec::new();
        } else {
            cur.push(c);
        }
        i = i + 1;
    }
    assert(chars@.take(chars.len() as int) == content@);
    take_cpuinfo_line(&mut f, &cur, Ghost(done));
    let ghost lines = done.push(cur@);
    assert(lines == os_lines(content@));
    if let Some(v) = f.model_name {
        return Some(chars_to_string(&v));
    }
    if let Some(v) = f.model_dt {
        return Some(chars_to_string(&v));
    }
    if let Some(v) = f.processor {
        return Some(chars_to_string(&v));
    }
    if let Some(v) = f.hardware {
        return Some(chars_to_string(&v));
    }
    if let Some(v) = f.cpu_model {
        return Some(chars_to_string(&v));
    }
    if f.cpu_arch.is_none() && f.cpu_impl.is_none() && f.cpu_part.is_none() {
        return None;
    }
    let mut out: Vec<char> = Vec::new();
    if let Some(v) = &f.cpu_arch {
        push_part(&mut out, "arch ", v);
    }
    if let Some(v) = &f.cpu_impl {
        push_part(&mut out, "implementer ", v);
    }
    if let Some(v) = &f.cpu_part {
        push_part(&mut out, "part ", v);
    }
    proof {
        reveal_strlit("arch ");
    }
    Some(chars_to_string(&out))
}

fn is_processor_line(line: &Vec<char>) -> (r: bool)
    ensures
        r == (cpuinfo_entry(line@) is Some && cpuinfo_entry(line@).unwrap().0 == "processor"@),
{
    match parse_cpuinfo_line(line) {
        Some((k, _v)) => chars_eq(&k, &str_to_chars("processor")),
        None => false,
    }
}

/// How many `processor` lines a `/proc/cpuinfo` text has (its core count).
pub fn count_cpuinfo_processors(content: &str) -> (r: usize)
    ensures
        r == key_count(os_lines(content@), "processor"@),
{
    let chars = str_to_chars(content);
    let mut count: usize = 0;
    let mut cur: Vec<char> = Vec::new();
    let ghost mut done: Seq<Seq<char>> = Seq::empty();
    let mut i: usize = 0;
    while i < chars.len()
        invariant
            i <= chars.len(),
            chars@ == content@,
            split_acc(chars@.take(i as int)) == (done, cur@),
            count == key_count(done, "processor"@),
            count <= done.len(),
            done.len() + cur@.len() <= i,
        decreases chars.len() - i,
    {
        let c = chars[i];
        assert(chars@.take(i as int + 1).drop_last() == chars@.take(i as int));
        if c == '\n' {
            let hit = is_processor_line(&cur);
            proof {
                let d2 = done.push(cur@);
                assert(d2.drop_last() == done);
                assert(d2.last() == cur@);
                done = d2;
            }
            if hit {
                count = count + 1;
            }
            cur = Vec::new();
        } else {
            cur.push(c);
        }
        i = i + 1;
    }
    assert(chars@.take(chars.len() as int) == content@);
    let ghost lines = done.push(cur@);
    assert(lines == os_lines(content@));
    assert(lines.drop_last() == done);
    if is_processor_line(&cur) {
        proof {
            cur@.index_of_first_ensures(':');
        }
        count = count + 1;
    }
    count
}

} // verus!
