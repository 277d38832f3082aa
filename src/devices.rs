//! Finding touch devices in the kernel's input-device registry, and the
//! axis-range decisions made for each opened device.
//!
//! The registry is text: one block of lines per device, blocks separated by
//! blank lines. `N: Name=` gives the name, `B: ABS=` announces absolute
//! axes and `H: Handlers=` lists the device's handlers.
use vstd::prelude::*;
use crate::mapper::AxisRange;

verus! {

/// How many default device nodes are probed when the registry gives none.
pub const FALLBACK_NODE_COUNT: u32 = 20;

/// The range assumed for an axis whose range cannot be queried.
pub const DEFAULT_AXIS_MAX: i32 = 32767;

/// Whether `c` is white space in Unicode's sense (`White_Space`).
pub open spec fn is_white_space(c: char) -> bool {
    ('\u{9}' <= c && c <= '\u{d}') || c == ' ' || c == '\u{85}' || c == '\u{a0}'
        || c == '\u{1680}' || ('\u{2000}' <= c && c <= '\u{200a}') || c == '\u{2028}'
        || c == '\u{2029}' || c == '\u{202f}' || c == '\u{205f}' || c == '\u{3000}'
}

/// Whether `needle` occurs in `hay`.
pub open spec fn contains(hay: Seq<char>, needle: Seq<char>) -> bool {
    exists|i: int| 0 <= i <= hay.len() - needle.len() && #[trigger] hay.subrange(i, i + needle.len()) == needle
}

/// Whether a lower-cased name line names a touch device.
pub open spec fn touch_name(lowered: Seq<char>) -> bool {
    contains(lowered, "touch"@) || contains(lowered, "ts"@) || contains(lowered, "finger"@)
}

/// The first index from `i` on that holds `'\n'`, or the length.
pub open spec fn next_newline(t: Seq<char>, i: int) -> int
    decreases t.len() - i,
{
    if i >= t.len() {
        t.len() as int
    } else if t[i] == '\n' {
        i
    } else {
        next_newline(t, i + 1)
    }
}

/// The line that starts at `i`: up to the next `'\n'`, without the `'\r'`
/// of a `"\r\n"` ending.
pub open spec fn line_at(t: Seq<char>, i: int) -> Seq<char> {
    let j = next_newline(t, i);
    if j < t.len() && j > i && t[j - 1] == '\r' {
        t.subrange(i, j - 1)
    } else {
        t.subrange(i, j)
    }
}

/// The first index from `p` on that is not white space, or the length.
pub open spec fn skip_space(l: Seq<char>, p: int) -> int
    decreases l.len() - p,
{
    if p >= l.len() || p < 0 {
        l.len() as int
    } else if !is_white_space(l[p]) {
        p
    } else {
        skip_space(l, p + 1)
    }
}

/// The first index from `p` on that is white space, or the length.
pub open spec fn token_end(l: Seq<char>, p: int) -> int
    decreases l.len() - p,
{
    if p >= l.len() || p < 0 {
        l.len() as int
    } else if is_white_space(l[p]) {
        p
    } else {
        token_end(l, p + 1)
    }
}

/// The device path of an event handler.
pub open spec fn handler_path(token: Seq<char>) -> Seq<char> {
    "/dev/input/"@ + token
}

/// The device paths of the white-space separated words of `l` from `p` on
/// that start with `event`.
pub open spec fn event_paths(l: Seq<char>, p: int) -> Seq<Seq<char>>
    decreases l.len() - p,
{
    let a = skip_space(l, p);
    let b = token_end(l, a);
    if p < 0 || a >= l.len() || b <= p || b > l.len() {
        seq![]
    } else {
        let tok = l.subrange(a, b);
        let here = if "event"@.is_prefix_of(tok) {
            seq![handler_path(tok)]
        } else {
            seq![]
        };
        here + event_paths(l, b)
    }
}

/// What the scan of the registry carries from line to line.
pub struct ScanState {
    /// Handler paths of the current block.
    pub handlers: Seq<Seq<char>>,
    /// Whether the current block announces absolute axes.
    pub has_abs: bool,
    /// Whether the current block's name is a touch name.
    pub touch: bool,
    /// The paths accepted so far.
    pub found: Seq<Seq<char>>,
}

/// The scan before the first line.
pub open spec fn scan_start() -> ScanState {
    ScanState { handlers: seq![], has_abs: false, touch: false, found: seq![] }
}

/// The scan after one line. Blocks are delimited by blank lines alone: a
/// blank line ends the current block, whose handlers are accepted when it
/// announces absolute axes and either has a touch name or has handlers.
pub open spec fn scan_line(st: ScanState, line: Seq<char>, lower_of_line: Seq<char>) -> ScanState {
    if "N: Name="@.is_prefix_of(line) {
        ScanState { touch: touch_name(lower_of_line), ..st }
    } else if "B: ABS="@.is_prefix_of(line) {
        ScanState { has_abs: true, ..st }
    } else if "H: Handlers="@.is_prefix_of(line) {
        ScanState { handlers: event_paths(line, 0), ..st }
    } else if line.len() == 0 {
        let accept = st.has_abs && (st.touch || st.handlers.len() > 0);
        ScanState {
            found: if accept { st.found + st.handlers } else { st.found },
            handlers: seq![],
            has_abs: false,
            touch: false,
        }
    } else {
        st
    }
}

/// The scan of the lines of `t` from index `i` on, starting in state `st`.
pub open spec fn scan_from(t: Seq<char>, i: int, st: ScanState) -> ScanState
    decreases t.len() + 1 - i,
{
    let j = next_newline(t, i);
    if i < 0 || i >= t.len() || j < i || j > t.len() {
        st
    } else {
        let line = line_at(t, i);
        scan_from(t, j + 1, scan_line(st, line, lower_of(line)))
    }
}

/// The touch candidates that a registry text lists.
pub open spec fn registry_devices(t: Seq<char>) -> Seq<Seq<char>> {
    scan_from(t, 0, scan_start()).found
}

/// What `str::to_lowercase` returns for a text.
pub uninterp spec fn lower_of(s: Seq<char>) -> Seq<char>;

/// Relies on `str::to_lowercase`: its result depends on the text alone.
#[verifier::external_body]
fn lowercase(s: &str) -> (r: String)
    ensures
        r@ == lower_of(s@),
{
    s.to_lowercase()
}

fn white_space(c: char) -> (r: bool)
    ensures
        r == is_white_space(c),
{
    ('\u{9}' <= c && c <= '\u{d}') || c == ' ' || c == '\u{85}' || c == '\u{a0}'
        || c == '\u{1680}' || ('\u{2000}' <= c && c <= '\u{200a}') || c == '\u{2028}'
        || c == '\u{2029}' || c == '\u{202f}' || c == '\u{205f}' || c == '\u{3000}'
}

fn chars_of(s: &str) -> (r: Vec<char>)
    ensures
        r@ == s@,
{
    let n: usize = s.unicode_len();
    let mut r: Vec<char> = Vec::new();
    let mut i: usize = 0;
    while i < n
        invariant
            n == s@.len(),
            i <= n,
            r@ == s@.subrange(0, i as int),
        decreases n - i,
    {
        r.push(s.get_char(i));
        i = i + 1;
        assert(r@ =~= s@.subrange(0, i as int));
    }
    assert(r@ =~= s@);
    r
}

/// Whether `p` is a prefix of `l[from..to]`.
fn has_prefix(l: &Vec<char>, from: usize, to: usize, p: &str) -> (r: bool)
    requires
        from <= to <= l@.len(),
    ensures
        r == p@.is_prefix_of(l@.subrange(from as int, to as int)),
{
    let n: usize = p.unicode_len();
    if n > to - from {
        return false;
    }
    let mut k: usize = 0;
    while k < n
        invariant
            n == p@.len(),
            n <= to - from,
            from <= to <= l@.len(),
            k <= n,
            forall|q: int| 0 <= q < k ==> p@[q] == l@[from + q],
        decreases n - k,
    {
        if p.get_char(k) != l[from + k] {
            return false;
        }
        k = k + 1;
    }
    assert(p@ =~= l@.subrange(from as int, to as int).subrange(0, n as int));
    true
}

/// Whether `needle` occurs in `hay`.
fn contains_text(hay: &Vec<char>, needle: &str) -> (r: bool)
    ensures
        r == contains(hay@, needle@),
{
    let n: usize = needle.unicode_len();
    if n > hay.len() {
        return false;
    }
    let mut i: usize = 0;
    while i <= hay.len() - n
        invariant
            n == needle@.len(),
            n <= hay@.len(),
            i <= hay@.len() - n + 1,
            forall|j: int| 0 <= j < i ==> #[trigger] hay@.subrange(j, j + n) != needle@,
        decreases hay@.len() - n + 1 - i,
    {
        if has_prefix(hay, i, i + n, needle) {
            assert(hay@.subrange(i as int, i + n) =~= needle@);
            return true;
        }
        proof {
            if hay@.subrange(i as int, i + n) == needle@ {
                assert(needle@.is_prefix_of(hay@.subrange(i as int, i + n)));
            }
        }
        i = i + 1;
    }
    false
}

/// Whether a lower-cased `N: Name=` line names a touch device: it holds
/// `touch`, `ts` or `finger`.
pub fn is_touch_name(lowered: &str) -> (r: bool)
    ensures
        r == touch_name(lowered@),
{
    let l = chars_of(lowered);
    contains_text(&l, "touch") || contains_text(&l, "ts") || contains_text(&l, "finger")
}

/// Whether a `N: Name=` line names a touch device, in any letter case.
pub fn is_touch_name_line(line: &str) -> (r: bool)
    ensures
        r == touch_name(lower_of(line@)),
{
    let low = lowercase(line);
    is_touch_name(low.as_str())
}

fn find_newline(t: &Vec<char>, i: usize) -> (j: usize)
    requires
        i <= t@.len(),
    ensures
        j as int == next_newline(t@, i as int),
        i <= j <= t@.len(),
    decreases t@.len() - i,
{
    let mut j: usize = i;
    while j < t.len() && t[j] != '\n'
        invariant
            i <= j <= t@.len(),
            next_newline(t@, i as int) == next_newline(t@, j as int),
        decreases t@.len() - j,
    {
        j = j + 1;
    }
    j
}

fn skip_space_exec(l: &Vec<char>, p: usize) -> (a: usize)
    requires
        p <= l@.len(),
    ensures
        a as int == skip_space(l@, p as int),
        p <= a <= l@.len(),
{
    let mut a: usize = p;
    while a < l.len() && white_space(l[a])
        invariant
            p <= a <= l@.len(),
            skip_space(l@, p as int) == skip_space(l@, a as int),
        decreases l@.len() - a,
    {
        a = a + 1;
    }
    a
}

fn token_end_exec(l: &Vec<char>, p: usize) -> (b: usize)
    requires
        p <= l@.len(),
    ensures
        b as int == token_end(l@, p as int),
        p <= b <= l@.len(),
{
    let mut b: usize = p;
    while b < l.len() && !white_space(l[b])
        invariant
            p <= b <= l@.len(),
            token_end(l@, p as int) == token_end(l@, b as int),
        decreases l@.len() - b,
    {
        b = b + 1;
    }
    b
}

/// The device paths of the `event` words of a handlers line.
fn event_paths_exec(line: &str) -> (r: Vec<String>)
    ensures
        r@.map_values(|s: String| s@) == event_paths(line@, 0),
{
    let l = chars_of(line);
    let mut r: Vec<String> = Vec::new();
    let mut p: usize = 0;
    while p < l.len()
        invariant
            l@ == line@,
            p <= l@.len(),
            event_paths(l@, 0) == r@.map_values(|s: String| s@) + event_paths(l@, p as int),
        decreases l@.len() - p,
    {
        let a: usize = skip_space_exec(&l, p);
        let b: usize = token_end_exec(&l, a);
        if a >= l.len() || b <= p {
            assert(event_paths(l@, p as int) =~= Seq::<Seq<char>>::empty());
            assert(event_paths(l@, l@.len() as int) =~= Seq::<Seq<char>>::empty());
            p = l.len();
        } else {
            let ghost before = r@.map_values(|s: String| s@);
            let tok = line.substring_char(a, b);
            if has_prefix(&l, a, b, "event") {
                let mut path = String::from_str("/dev/input/");
                path.append(tok);
                r.push(path);
                assert(r@.map_values(|s: String| s@) =~= before + seq![handler_path(tok@)]);
            } else {
                assert(r@.map_values(|s: String| s@) =~= before);
            }
            proof {
                let here = if "event"@.is_prefix_of(tok@) {
                    seq![handler_path(tok@)]
                } else {
                    seq![]
                };
                assert(event_paths(l@, p as int) == here + event_paths(l@, b as int));
                assert(r@.map_values(|s: String| s@) == before + here);
                assert(before + (here + event_paths(l@, b as int)) =~= (before + here)
                    + event_paths(l@, b as int));
            }
            p = b;
        }
    }
    proof {
        assert(event_paths(l@, p as int) =~= Seq::<Seq<char>>::empty());
        assert(r@.map_values(|s: String| s@) + Seq::<Seq<char>>::empty() =~= r@.map_values(|s: String| s@));
    }
    r
}

pub open spec fn views(v: Seq<String>) -> Seq<Seq<char>> {
    v.map_values(|s: String| s@)
}

fn append_all(found: &mut Vec<String>, more: &Vec<String>)
    ensures
        views(final(found)@) == views(old(found)@) + views(more@),
{
    let ghost start = views(found@);
    let mut k: usize = 0;
    while k < more.len()
        invariant
            k <= more@.len(),
            views(found@) == start + views(more@).subrange(0, k as int),
        decreases more@.len() - k,
    {
        let c = more[k].clone();
        let ghost prev = found@;
        found.push(c);
        assert(views(found@) =~= views(prev).push(c@));
        assert(views(more@).subrange(0, k + 1) =~= views(more@).subrange(0, k as int).push(
            more@[k as int]@,
        ));
        k = k + 1;
        assert(views(found@) =~= start + views(more@).subrange(0, k as int));
    }
    assert(views(more@).subrange(0, k as int) =~= views(more@));
}

/// The touch candidates that a registry text lists, in order: the
/// `/dev/input/event*` paths of every block that announces absolute axes and
/// either has a touch name (`touch`, `ts` or `finger`, in any case) or has
/// handlers. A block counts only once a blank line ends it.
pub fn registry_candidates(text: &str) -> (r: Vec<String>)
    ensures
        views(r@) == registry_devices(text@),
{
    let t = chars_of(text);
    let mut handlers: Vec<String> = Vec::new();
    let mut has_abs = false;
    let mut touch = false;
    let mut found: Vec<String> = Vec::new();
    let mut i: usize = 0;
    assert(views(handlers@) =~= seq![]);
    assert(views(found@) =~= seq![]);
    while i < t.len()
        invariant
            t@ == text@,
            i <= t@.len(),
            registry_devices(t@) == scan_from(
                t@,
                i as int,
                ScanState { handlers: views(handlers@), has_abs, touch, found: views(found@) },
            ).found,
        decreases t@.len() - i,
    {
        let ghost st = ScanState { handlers: views(handlers@), has_abs, touch, found: views(found@) };
        let j: usize = find_newline(&t, i);
        let k: usize = if j < t.len() && j > i && t[j - 1] == '\r' {
            j - 1
        } else {
            j
        };
        let line = text.substring_char(i, k);
        assert(line@ == line_at(t@, i as int));
        if has_prefix(&t, i, k, "N: Name=") {
            touch = is_touch_name_line(line);
        } else if has_prefix(&t, i, k, "B: ABS=") {
            has_abs = true;
        } else if has_prefix(&t, i, k, "H: Handlers=") {
            handlers = event_paths_exec(line);
        } else if k == i {
            if has_abs && (touch || handlers.len() > 0) {
                append_all(&mut found, &handlers);
            }
            handlers = Vec::new();
            has_abs = false;
            touch = false;
            assert(views(handlers@) =~= seq![]);
        }
        proof {
            let st2 = ScanState { handlers: views(handlers@), has_abs, touch, found: views(found@) };
            assert(st2 == scan_line(st, line@, lower_of(line@)));
            assert(scan_from(t@, i as int, st) == scan_from(t@, j + 1, st2));
            if j >= t@.len() {
                assert(scan_from(t@, j + 1, st2) == st2);
                assert(scan_from(t@, j as int, st2) == st2);
            }
        }
        i = if j < t.len() {
            j + 1
        } else {
            j
        };
    }
    found
}

/// The devices to open: the registry's candidates, or, when the registry
/// could not be read (`None`) or lists none, the default nodes that exist.
pub fn find_touch_devices(registry: Option<&str>, existing_nodes: Vec<String>) -> (r: Vec<String>)
    ensures
        ({
            let listed = match registry {
                Some(t) => registry_devices(t@),
                None => Seq::<Seq<char>>::empty(),
            };
            if listed.len() > 0 {
                views(r@) == listed
            } else {
                r@ == existing_nodes@
            }
        }),
{
    let found = match registry {
        Some(t) => registry_candidates(t),
        None => Vec::new(),
    };
    if found.len() > 0 {
        found
    } else {
        existing_nodes
    }
}

/// The range that an axis query reports, when it is usable: the query
/// succeeded (`status == 0`) and `maximum > minimum`.
pub fn abs_range_from_query(status: i32, minimum: i32, maximum: i32) -> (r: Option<AxisRange>)
    ensures
        r == (if status == 0 && maximum > minimum {
            Some(AxisRange { min: minimum, max: maximum })
        } else {
            None
        }),
{
    if status == 0 && maximum > minimum {
        Some(AxisRange { min: minimum, max: maximum })
    } else {
        None
    }
}

/// The range assumed when no query succeeds.
pub open spec fn default_axis_range() -> AxisRange {
    AxisRange { min: 0, max: DEFAULT_AXIS_MAX }
}

/// The range used for one dimension: the multitouch axis's range, else the
/// single-touch axis's, else the default.
pub fn pick_axis_range(multitouch: Option<AxisRange>, legacy: Option<AxisRange>) -> (r: AxisRange)
    ensures
        r == match multitouch {
            Some(a) => a,
            None => match legacy {
                Some(b) => b,
                None => default_axis_range(),
            },
        },
{
    match multitouch {
        Some(a) => a,
        None => match legacy {
            Some(b) => b,
            None => AxisRange { min: 0, max: DEFAULT_AXIS_MAX },
        },
    }
}

/// The size in bytes of the kernel's axis description (six `i32` fields).
pub const ABS_INFO_SIZE: u32 = 24;

/// The device-control request that reads the range of axis `axis`: a read
/// (direction 2 in the top two bits) of `ABS_INFO_SIZE` bytes, type `'E'`,
/// ordinal `0x40 + axis`. The ordinal field is 8 bits wide, so `axis` is
/// below `0xc0`.
pub fn eviocgabs(axis: u16) -> (r: u32)
    requires
        axis < 0xc0,
    ensures
        r == 2 * 0x4000_0000 + ABS_INFO_SIZE * 0x1_0000 + 0x45 * 0x100 + 0x40 + axis,
{
    2 * 0x4000_0000 + ABS_INFO_SIZE * 0x1_0000 + 0x45 * 0x100 + 0x40 + axis as u32
}

} // verus!
