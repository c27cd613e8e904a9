//! Process identity: normalized snapshots of running processes, Windows path
//! normalization, and matching processes against a locked executable name.

use vstd::prelude::*;
use vstd::string::StringExecFns;
use vstd::utf8::encode_utf8;
use crate::error::LockError;
use crate::text::{all_whitespace, chars_of, has_char, is_blank, lowercase, string_from_chars, to_lowercase};

verus! {

/// Abstract value of a process snapshot.
pub struct ProcessInfoView {
    pub pid: u32,
    pub exe_name: Seq<char>,
    pub exe_path: Seq<char>,
}

/// Information about a running process; name and path are normalized to lowercase.
#[derive(Debug, PartialEq, Eq, Hash)]
pub struct ProcessInfo {
    /// Process ID.
    pub pid: u32,
    /// Executable name (lowercase).
    pub exe_name: String,
    /// Full executable path (lowercase).
    pub exe_path: String,
}

impl View for ProcessInfo {
    type V = ProcessInfoView;

    open spec fn view(&self) -> ProcessInfoView {
        ProcessInfoView { pid: self.pid, exe_name: self.exe_name@, exe_path: self.exe_path@ }
    }
}

impl Clone for ProcessInfo {
    fn clone(&self) -> (r: Self)
        ensures
            r@ == self@,
    {
        ProcessInfo { pid: self.pid, exe_name: self.exe_name.clone(), exe_path: self.exe_path.clone() }
    }
}

/// What normalizing a name or path decides: the `PathNormalizationFailed` error
/// with `empty_reason` when it is blank, else its lowercase form.
pub open spec fn normalize_outcome(input: Seq<char>, empty_reason: Seq<char>, r: Result<String, LockError>) -> bool {
    if all_whitespace(input) {
        r matches Err(LockError::PathNormalizationFailed { path, reason }) && path@ == input && reason@
            == empty_reason
    } else {
        r matches Ok(s) && s@ == lowercase(input)
    }
}

/// What `ProcessInfo::new` returns.
pub open spec fn process_info_outcome(
    pid: u32,
    exe_name: Seq<char>,
    exe_path: Seq<char>,
    r: Result<ProcessInfo, LockError>,
) -> bool {
    if all_whitespace(exe_name) {
        r matches Err(LockError::PathNormalizationFailed { path, reason }) && path@ == exe_name
            && reason@ == "Executable name cannot be empty"@
    } else if all_whitespace(exe_path) {
        r matches Err(LockError::PathNormalizationFailed { path, reason }) && path@ == exe_path
            && reason@ == "Executable path cannot be empty"@
    } else {
        r matches Ok(p) && p@ == (ProcessInfoView {
            pid,
            exe_name: lowercase(exe_name),
            exe_path: lowercase(exe_path),
        })
    }
}

impl ProcessInfo {
    /// Creates a process snapshot with name and path lowercased.
    ///
    /// Fails with `PathNormalizationFailed` when the name, or else the path, is blank.
    pub fn new(pid: u32, exe_name: &str, exe_path: &str) -> (r: Result<Self, LockError>)
        ensures
            process_info_outcome(pid, exe_name@, exe_path@, r),
    {
        let normalized_name = match Self::normalize_name(exe_name) {
            Ok(n) => n,
            Err(e) => {
                return Err(e);
            },
        };
        let normalized_path = match Self::normalize_path(exe_path) {
            Ok(p) => p,
            Err(e) => {
                return Err(e);
            },
        };
        Ok(ProcessInfo { pid, exe_name: normalized_name, exe_path: normalized_path })
    }

    /// Lowercases an executable name; fails when it is blank.
    fn normalize_name(name: &str) -> (r: Result<String, LockError>)
        ensures
            normalize_outcome(name@, "Executable name cannot be empty"@, r),
    {
        if is_blank(name) {
            return Err(
                LockError::PathNormalizationFailed {
                    path: String::from_str(name),
                    reason: String::from_str("Executable name cannot be empty"),
                },
            );
        }
        Ok(to_lowercase(name))
    }

    /// Lowercases an executable path (Windows paths are case-insensitive); fails when it is blank.
    fn normalize_path(path: &str) -> (r: Result<String, LockError>)
        ensures
            normalize_outcome(path@, "Executable path cannot be empty"@, r),
    {
        if is_blank(path) {
            return Err(
                LockError::PathNormalizationFailed {
                    path: String::from_str(path),
                    reason: String::from_str("Executable path cannot be empty"),
                },
            );
        }
        Ok(to_lowercase(path))
    }

    /// Whether this process runs the executable `target_exe_name`, compared case-insensitively.
    pub fn matches(&self, target_exe_name: &str) -> (b: bool)
        ensures
            b == (self.exe_name@ == lowercase(target_exe_name@)),
    {
        let target_normalized = to_lowercase(target_exe_name);
        self.exe_name == target_normalized
    }
}


/// `/` becomes `\`; every other character stays.
pub open spec fn backslashed(s: Seq<char>) -> Seq<char> {
    Seq::new(s.len(), |i: int| if s[i] == '/' { '\\' } else { s[i] })
}

/// `r` with every trailing `\` dropped while the text is longer than three
/// bytes in UTF-8 (so a root such as `c:\` keeps its separator).
pub open spec fn strip_trailing_separators(r: Seq<char>) -> Seq<char>
    decreases r.len(),
{
    if encode_utf8(r).len() > 3 && r.len() > 0 && r.last() == '\\' {
        strip_trailing_separators(r.drop_last())
    } else {
        r
    }
}

/// What `PathNormalizer::normalize` returns: the path lowercased, with `/`
/// turned into `\`, and trailing `\` dropped beyond a root such as `c:\`.
pub open spec fn normalized_path(path: Seq<char>) -> Seq<char> {
    strip_trailing_separators(backslashed(lowercase(path)))
}

/// Stripping keeps a prefix of the text, and what it gives has no trailing
/// `\` left beyond a root: stripping it again changes nothing.
pub proof fn lemma_strip_trailing_separators(r: Seq<char>)
    ensures
        strip_trailing_separators(r).len() <= r.len(),
        strip_trailing_separators(r) == r.subrange(0, strip_trailing_separators(r).len() as int),
        strip_trailing_separators(strip_trailing_separators(r)) == strip_trailing_separators(r),
        strip_trailing_separators(r).len() > 0 && strip_trailing_separators(r).last() == '\\'
            ==> encode_utf8(strip_trailing_separators(r)).len() <= 3,
    decreases r.len(),
{
    if encode_utf8(r).len() > 3 && r.len() > 0 && r.last() == '\\' {
        lemma_strip_trailing_separators(r.drop_last());
        let t = strip_trailing_separators(r.drop_last());
        assert(r.drop_last().subrange(0, t.len() as int) =~= r.subrange(0, t.len() as int));
    } else {
        assert(r.subrange(0, r.len() as int) =~= r);
    }
}

/// A path separator on Windows: `\`, and `/` as well outside verbatim (`\\?\`) paths.
pub open spec fn is_separator(c: char, verbatim: bool) -> bool {
    c == '\\' || (!verbatim && c == '/')
}

/// Index of the first separator of `s` at or after `from`, or the length of `s`.
pub open spec fn next_separator(s: Seq<char>, from: int, verbatim: bool) -> int
    decreases s.len() - from,
{
    if from < 0 || from >= s.len() {
        s.len() as int
    } else if is_separator(s[from], verbatim) {
        from
    } else {
        next_separator(s, from + 1, verbatim)
    }
}

/// `next_separator` lies between `from` and the end, and skips no separator.
pub proof fn lemma_next_separator(s: Seq<char>, from: int, verbatim: bool)
    requires
        0 <= from <= s.len(),
    ensures
        from <= next_separator(s, from, verbatim) <= s.len(),
        forall|k: int| from <= k < next_separator(s, from, verbatim) ==> !is_separator(#[trigger] s[k], verbatim),
    decreases s.len() - from,
{
    if from < s.len() && !is_separator(s[from], verbatim) {
        lemma_next_separator(s, from + 1, verbatim);
    }
}

/// Index at which the final segment of `s` begins (just after its last separator).
pub open spec fn segment_start(s: Seq<char>, verbatim: bool) -> int
    decreases s.len(),
{
    if s.len() == 0 {
        0
    } else if is_separator(s.last(), verbatim) {
        s.len() as int
    } else {
        segment_start(s.drop_last(), verbatim)
    }
}

/// Bounds of `segment_start`; the characters of the final segment are not separators.
pub proof fn lemma_segment_start_bounds(s: Seq<char>, verbatim: bool)
    ensures
        0 <= segment_start(s, verbatim) <= s.len(),
        s.len() > 0 && !is_separator(s.last(), verbatim) ==> segment_start(s, verbatim) < s.len(),
        forall|k: int| segment_start(s, verbatim) <= k < s.len() ==> !is_separator(#[trigger] s[k], verbatim),
    decreases s.len(),
{
    if s.len() > 0 && !is_separator(s.last(), verbatim) {
        lemma_segment_start_bounds(s.drop_last(), verbatim);
        assert forall|k: int| segment_start(s, verbatim) <= k < s.len() implies !is_separator(
            #[trigger] s[k],
            verbatim,
        ) by {
            if k < s.len() - 1 {
                assert(s[k] == s.drop_last()[k]);
            }
        }
    }
}

/// The last name component of the path body `s`: trailing separators are
/// skipped, and so are `.` components outside verbatim paths; `None` when
/// nothing remains or the last component is `..` (or, in a verbatim path, `.`).
pub open spec fn last_component(s: Seq<char>, verbatim: bool) -> Option<Seq<char>>
    decreases s.len(),
{
    if s.len() == 0 {
        None
    } else if is_separator(s.last(), verbatim) {
        last_component(s.drop_last(), verbatim)
    } else {
        let start = segment_start(s, verbatim);
        let seg = s.subrange(start, s.len() as int);
        if seg == seq!['.'] && !verbatim {
            proof {
                lemma_segment_start_bounds(s, verbatim);
            }
            last_component(s.subrange(0, start), verbatim)
        } else if seg == seq!['.'] || seg == seq!['.', '.'] {
            None
        } else {
            Some(seg)
        }
    }
}

/// An ASCII letter, as a drive designator uses.
pub open spec fn is_drive_letter(c: char) -> bool {
    ('a' <= c <= 'z') || ('A' <= c <= 'Z')
}

/// A leading drive designator such as `C:`.
pub open spec fn has_drive_prefix(p: Seq<char>) -> bool {
    p.len() >= 2 && is_drive_letter(p[0]) && p[1] == ':'
}

/// The prefix of a Windows path: how many characters it takes, and whether the
/// path is verbatim. The prefixes are `\\?\UNC\server\share`, `\\?\C:`,
/// `\\?\name` (verbatim), `\\.\device`, `\\server\share` and `C:`; outside
/// verbatim paths `/` may stand for `\` in them.
pub open spec fn path_prefix(p: Seq<char>) -> (int, bool) {
    if p.len() >= 2 && is_separator(p[0], false) && is_separator(p[1], false) {
        if p.len() >= 4 && p[0] == '\\' && p[1] == '\\' && p[2] == '?' && p[3] == '\\' {
            if p.len() >= 8 && p[4] == 'U' && p[5] == 'N' && p[6] == 'C' && is_separator(p[7], false) {
                let server_end = next_separator(p, 8, true);
                if server_end < p.len() {
                    (next_separator(p, server_end + 1, true), true)
                } else {
                    (server_end, true)
                }
            } else if p.len() >= 6 && is_drive_letter(p[4]) && p[5] == ':' && (p.len() == 6 || p[6] == '\\') {
                (6, true)
            } else {
                (next_separator(p, 4, true), true)
            }
        } else if p.len() >= 4 && p[2] == '.' && is_separator(p[3], false) {
            (next_separator(p, 4, false), false)
        } else {
            let server_end = next_separator(p, 2, false);
            if 2 < server_end < p.len() && next_separator(p, server_end + 1, false) > server_end + 1 {
                (next_separator(p, server_end + 1, false), false)
            } else {
                (0, false)
            }
        }
    } else if has_drive_prefix(p) {
        (2, false)
    } else {
        (0, false)
    }
}

/// The file name of a Windows path: the last name component after its prefix.
pub open spec fn file_name_of(p: Seq<char>) -> Option<Seq<char>> {
    last_component(p.subrange(path_prefix(p).0, p.len() as int), path_prefix(p).1)
}

/// The index of the first separator of `chars` at or after `from` (see [`next_separator`]).
fn find_separator(chars: &Vec<char>, from: usize, verbatim: bool) -> (r: usize)
    requires
        from <= chars@.len(),
    ensures
        r == next_separator(chars@, from as int, verbatim),
        from <= r <= chars@.len(),
{
    proof {
        lemma_next_separator(chars@, from as int, verbatim);
    }
    let mut i = from;
    while i < chars.len() && !(chars[i] == '\\' || (!verbatim && chars[i] == '/'))
        invariant
            from <= i <= chars@.len(),
            next_separator(chars@, i as int, verbatim) == next_separator(chars@, from as int, verbatim),
        decreases chars.len() - i,
    {
        i = i + 1;
    }
    i
}

/// Where the prefix of the path `chars` ends, and whether the path is verbatim (see [`path_prefix`]).
fn find_prefix(chars: &Vec<char>) -> (r: (usize, bool))
    ensures
        r.0 == path_prefix(chars@).0,
        r.1 == path_prefix(chars@).1,
        r.0 <= chars@.len(),
{
    let len = chars.len();
    let sep0 = len >= 2 && (chars[0] == '\\' || chars[0] == '/');
    let sep1 = len >= 2 && (chars[1] == '\\' || chars[1] == '/');
    if sep0 && sep1 {
        if len >= 4 && chars[0] == '\\' && chars[1] == '\\' && chars[2] == '?' && chars[3] == '\\' {
            if len >= 8 && chars[4] == 'U' && chars[5] == 'N' && chars[6] == 'C' && (chars[7] == '\\'
                || chars[7] == '/') {
                let server_end = find_separator(chars, 8, true);
                if server_end < len {
                    (find_separator(chars, server_end + 1, true), true)
                } else {
                    (server_end, true)
                }
            } else if len >= 6 && (('a' <= chars[4] && chars[4] <= 'z') || ('A' <= chars[4] && chars[4] <= 'Z'))
                && chars[5] == ':' && (len == 6 || chars[6] == '\\') {
                (6, true)
            } else {
                (find_separator(chars, 4, true), true)
            }
        } else if len >= 4 && chars[2] == '.' && (chars[3] == '\\' || chars[3] == '/') {
            (find_separator(chars, 4, false), false)
        } else {
            let server_end = find_separator(chars, 2, false);
            if 2 < server_end && server_end < len {
                let share_end = find_separator(chars, server_end + 1, false);
                if share_end > server_end + 1 {
                    (share_end, false)
                } else {
                    (0, false)
                }
            } else {
                (0, false)
            }
        }
    } else if len >= 2 && (('a' <= chars[0] && chars[0] <= 'z') || ('A' <= chars[0] && chars[0] <= 'Z'))
        && chars[1] == ':' {
        (2, false)
    } else {
        (0, false)
    }
}

/// Normalization and comparison of Windows paths.
pub struct PathNormalizer;

impl PathNormalizer {
    /// Normalizes a path for comparison: lowercase, `\` as the only separator,
    /// no trailing separators (a root such as `c:\` keeps its one).
    pub fn normalize(path: &str) -> (r: String)
        ensures
            r@ == normalized_path(path@),
    {
        let lower = to_lowercase(path);
        let chars = chars_of(lower.as_str());
        let mut replaced: Vec<char> = Vec::new();
        let mut i: usize = 0;
        while i < chars.len()
            invariant
                i <= chars@.len(),
                chars@ == lowercase(path@),
                replaced@ == backslashed(chars@).take(i as int),
            decreases chars.len() - i,
        {
            let c = chars[i];
            if c == '/' {
                replaced.push('\\');
            } else {
                replaced.push(c);
            }
            i = i + 1;
            assert(replaced@ =~= backslashed(chars@).take(i as int));
        }
        assert(replaced@ =~= backslashed(lowercase(path@)));
        let mut end: usize = replaced.len();
        let mut done = false;
        while !done
            invariant
                end <= replaced@.len(),
                replaced@ == backslashed(lowercase(path@)),
                strip_trailing_separators(replaced@.subrange(0, end as int)) == normalized_path(path@),
                done ==> strip_trailing_separators(replaced@.subrange(0, end as int)) == replaced@.subrange(
                    0,
                    end as int,
                ),
            decreases end + if done { 0int } else { 1int },
        {
            if end > 0 && replaced[end - 1] == '\\' {
                let prefix = string_from_chars(&replaced, 0, end);
                if prefix.as_str().as_bytes().len() > 3 {
                    assert(replaced@.subrange(0, end as int).drop_last() =~= replaced@.subrange(0, end - 1));
                    end = end - 1;
                } else {
                    done = true;
                }
            } else {
                done = true;
            }
        }
        string_from_chars(&replaced, 0, end)
    }

    /// The file name of a Windows path, lowercased.
    ///
    /// Fails with `PathNormalizationFailed` when the path has no file name
    /// (nothing after its prefix but separators, or ending in `..`).
    pub fn filename(path: &str) -> (r: Result<String, LockError>)
        ensures
            file_name_of(path@) matches Some(name) ==> (r matches Ok(s) && s@ == lowercase(name)),
            file_name_of(path@) is None ==> (r matches Err(LockError::PathNormalizationFailed { path: p, reason })
                && p@ == path@ && reason@ == "Could not extract filename"@),
    {
        let chars = chars_of(path);
        let len = chars.len();
        let (begin, verbatim) = find_prefix(&chars);
        let mut end: usize = len;
        while end > begin
            invariant
                chars@ == path@,
                len == chars@.len(),
                begin <= end <= len,
                begin == path_prefix(path@).0,
                verbatim == path_prefix(path@).1,
                last_component(chars@.subrange(begin as int, end as int), verbatim) == file_name_of(path@),
            decreases end,
        {
            let ghost body = chars@.subrange(begin as int, end as int);
            if chars[end - 1] == '\\' || (!verbatim && chars[end - 1] == '/') {
                assert(body.drop_last() =~= chars@.subrange(begin as int, end - 1));
                end = end - 1;
            } else {
                let mut k: usize = end;
                while k > begin && !(chars[k - 1] == '\\' || (!verbatim && chars[k - 1] == '/'))
                    invariant
                        chars@ == path@,
                        len == chars@.len(),
                        begin <= k <= end <= len,
                        body == chars@.subrange(begin as int, end as int),
                        segment_start(body, verbatim) == segment_start(
                            chars@.subrange(begin as int, k as int),
                            verbatim,
                        ),
                    decreases k,
                {
                    assert(chars@.subrange(begin as int, k as int).drop_last() =~= chars@.subrange(
                        begin as int,
                        k - 1,
                    ));
                    k = k - 1;
                }
                assert(segment_start(body, verbatim) == k - begin) by {
                    let sub = chars@.subrange(begin as int, k as int);
                    if k > begin {
                        assert(is_separator(sub.last(), verbatim));
                    }
                }
                let ghost seg = body.subrange(k - begin, body.len() as int);
                assert(seg =~= chars@.subrange(k as int, end as int));
                let single_dot = end - k == 1 && chars[k] == '.';
                let double_dot = end - k == 2 && chars[k] == '.' && chars[k + 1] == '.';
                if single_dot {
                    assert(seg =~= seq!['.']);
                }
                if double_dot {
                    assert(seg =~= seq!['.', '.']);
                }
                if single_dot && !verbatim {
                    assert(body.subrange(0, k - begin) =~= chars@.subrange(begin as int, k as int));
                    end = k;
                } else if single_dot || double_dot {
                    return Err(
                        LockError::PathNormalizationFailed {
                            path: String::from_str(path),
                            reason: String::from_str("Could not extract filename"),
                        },
                    );
                } else {
                    assert(seg != seq!['.']) by {
                        if seg == seq!['.'] {
                            assert(seg.len() == 1 && seg[0] == '.');
                            assert(chars@[k as int] == seg[0]);
                        }
                    }
                    assert(seg != seq!['.', '.']) by {
                        if seg == seq!['.', '.'] {
                            assert(seg.len() == 2 && seg[0] == '.' && seg[1] == '.');
                            assert(chars@[k as int] == seg[0]);
                            assert(chars@[k + 1] == seg[1]);
                        }
                    }
                    let name = string_from_chars(&chars, k, end);
                    return Ok(to_lowercase(name.as_str()));
                }
            }
        }
        assert(chars@.subrange(begin as int, end as int) =~= Seq::<char>::empty());
        Err(
            LockError::PathNormalizationFailed {
                path: String::from_str(path),
                reason: String::from_str("Could not extract filename"),
            },
        )
    }
}


/// The abstract values of a sequence of processes.
pub open spec fn process_views(s: Seq<ProcessInfo>) -> Seq<ProcessInfoView> {
    s.map_values(|p: ProcessInfo| p@)
}

/// The processes of `s` that run the executable `target`, compared case-insensitively, in order.
pub open spec fn matching_processes(s: Seq<ProcessInfoView>, target: Seq<char>) -> Seq<ProcessInfoView> {
    s.filter(|p: ProcessInfoView| p.exe_name == lowercase(target))
}

/// Matches running processes against a target executable name.
pub struct ProcessMatcher {
    target_app_name: String,
}

impl View for ProcessMatcher {
    /// The target name as given.
    type V = Seq<char>;

    closed spec fn view(&self) -> Seq<char> {
        self.target_app_name@
    }
}

impl ProcessMatcher {
    /// Creates a matcher for the executable `target_app_name`.
    pub fn new(target_app_name: &str) -> (m: Self)
        ensures
            m@ == target_app_name@,
    {
        ProcessMatcher { target_app_name: String::from_str(target_app_name) }
    }

    /// Whether `process` runs the target executable.
    pub fn matches(&self, process: &ProcessInfo) -> (b: bool)
        ensures
            b == (process.exe_name@ == lowercase(self@)),
    {
        process.matches(self.target_app_name.as_str())
    }

    /// All processes in `processes` that run the target executable, in order.
    pub fn find_all<'a>(&self, processes: &'a [ProcessInfo]) -> (r: Vec<&'a ProcessInfo>)
        ensures
            r@.map_values(|p: &ProcessInfo| p@) == matching_processes(process_views(processes@), self@),
    {
        let mut found: Vec<&'a ProcessInfo> = Vec::new();
        let mut i: usize = 0;
        while i < processes.len()
            invariant
                i <= processes@.len(),
                found@.map_values(|p: &ProcessInfo| p@) == matching_processes(
                    process_views(processes@.take(i as int)),
                    self@,
                ),
            decreases processes.len() - i,
        {
            let ghost before = found@;
            let p = &processes[i];
            if self.matches(p) {
                found.push(p);
            }
            proof {
                reveal(Seq::filter);
                let pre = process_views(processes@.take(i as int));
                let post = process_views(processes@.take(i + 1));
                assert(post.drop_last() =~= pre);
                assert(post.last() == processes@[i as int]@);
                if self.matches_spec(p) {
                    assert(found@.map_values(|q: &ProcessInfo| q@) =~= before.map_values(
                        |q: &ProcessInfo| q@,
                    ).push(p@));
                } else {
                    assert(found@ == before);
                }
            }
            i = i + 1;
        }
        assert(processes@.take(processes@.len() as int) =~= processes@);
        found
    }

    /// Whether `process` runs the target executable.
    pub open spec fn matches_spec(&self, process: &ProcessInfo) -> bool {
        process.exe_name@ == lowercase(self@)
    }

    /// The first process in `processes` that runs the target executable, if any.
    pub fn find_first<'a>(&self, processes: &'a [ProcessInfo]) -> (r: Option<&'a ProcessInfo>)
        ensures
            r matches Some(p) ==> exists|i: int| 0 <= i < processes@.len() && processes@[i] == *p
                && self.matches_spec(p) && forall|j: int| 0 <= j < i ==> !self.matches_spec(
                &#[trigger] processes@[j],
            ),
            r is None ==> forall|j: int| 0 <= j < processes@.len() ==> !self.matches_spec(
                &#[trigger] processes@[j],
            ),
    {
        let mut i: usize = 0;
        while i < processes.len()
            invariant
                i <= processes@.len(),
                forall|j: int| 0 <= j < i ==> !self.matches_spec(&#[trigger] processes@[j]),
            decreases processes.len() - i,
        {
            if self.matches(&processes[i]) {
                return Some(&processes[i]);
            }
            i = i + 1;
        }
        None
    }
}

/// Queries the operating system for running processes. Enumeration is not
/// implemented yet: it reports no processes.
pub struct ProcessQuery;

impl ProcessQuery {
    /// All running processes (none, until enumeration is implemented).
    pub fn enumerate_all() -> (r: Result<Vec<ProcessInfo>, LockError>)
        ensures
            r matches Ok(v) && v@.len() == 0,
    {
        Ok(Vec::new())
    }

    /// The process with ID `pid` (none, until querying is implemented).
    pub fn get_by_pid(pid: u32) -> (r: Result<Option<ProcessInfo>, LockError>)
        ensures
            r matches Ok(p) && p is None,
    {
        Ok(None)
    }

    /// All running processes that run the executable `target_app_name`.
    pub fn find_matching(target_app_name: &str) -> (r: Result<Vec<ProcessInfo>, LockError>)
        ensures
            r matches Ok(v) && process_views(v@) == matching_processes(Seq::empty(), target_app_name@),
    {
        let processes = match Self::enumerate_all() {
            Ok(ps) => ps,
            Err(e) => {
                return Err(e);
            },
        };
        let matcher = ProcessMatcher::new(target_app_name);
        let found = matcher.find_all(processes.as_slice());
        let mut owned: Vec<ProcessInfo> = Vec::new();
        let mut i: usize = 0;
        while i < found.len()
            invariant
                i <= found@.len(),
                process_views(owned@) == found@.map_values(|p: &ProcessInfo| p@).take(i as int),
            decreases found.len() - i,
        {
            let copy = found[i].clone();
            let ghost before = owned@;
            owned.push(copy);
            assert(process_views(owned@) =~= process_views(before).push(copy@));
            i = i + 1;
            assert(process_views(owned@) =~= found@.map_values(|p: &ProcessInfo| p@).take(i as int));
        }
        assert(processes@ =~= Seq::<ProcessInfo>::empty());
        assert(process_views(processes@) =~= Seq::<ProcessInfoView>::empty());
        assert(found@.map_values(|p: &ProcessInfo| p@).take(found@.len() as int) =~= found@.map_values(
            |p: &ProcessInfo| p@,
        ));
        Ok(owned)
    }
}


/// Matching ignores case: two targets with the same lowercase form match the same processes.
pub proof fn law_matching_ignores_case(ps: Seq<ProcessInfoView>, t1: Seq<char>, t2: Seq<char>)
    requires
        lowercase(t1) == lowercase(t2),
    ensures
        matching_processes(ps, t1) == matching_processes(ps, t2),
{
    assert((|p: ProcessInfoView| p.exe_name == lowercase(t1)) =~= (|p: ProcessInfoView| p.exe_name
        == lowercase(t2)));
}

/// A normalized path holds no `/`, and ends with `\` only when it is at most
/// three bytes long (a root such as `c:\`).
pub proof fn law_normalized_path_form(path: Seq<char>)
    ensures
        !has_char(normalized_path(path), '/'),
        normalized_path(path).len() > 0 && normalized_path(path).last() == '\\'
            ==> encode_utf8(normalized_path(path)).len() <= 3,
{
    let b = backslashed(lowercase(path));
    lemma_strip_trailing_separators(b);
    let r = normalized_path(path);
    if has_char(r, '/') {
        let i = choose|i: int| 0 <= i < r.len() && r[i] == '/';
        assert(r[i] == b[i]);
    }
}

/// Normalizing a normalized path changes nothing, wherever lowercasing leaves
/// the normalized path as it is.
pub proof fn law_normalize_idempotent(path: Seq<char>)
    requires
        lowercase(normalized_path(path)) == normalized_path(path),
    ensures
        normalized_path(normalized_path(path)) == normalized_path(path),
{
    let r = normalized_path(path);
    law_normalized_path_form(path);
    assert(backslashed(r) =~= r) by {
        assert forall|i: int| 0 <= i < r.len() implies r[i] != '/' by {
            if r[i] == '/' {
                assert(has_char(r, '/'));
            }
        }
    }
    lemma_strip_trailing_separators(backslashed(lowercase(path)));
}

/// Every process that matching keeps runs the target executable, and none is invented.
pub proof fn law_matches_are_genuine(ps: Seq<ProcessInfoView>, target: Seq<char>, i: int)
    requires
        0 <= i < matching_processes(ps, target).len(),
    ensures
        matching_processes(ps, target)[i].exe_name == lowercase(target),
        ps.contains(matching_processes(ps, target)[i]),
{
    let pred = |p: ProcessInfoView| p.exe_name == lowercase(target);
    ps.lemma_filter_pred(pred, i);
    let e = ps.filter(pred)[i];
    assert(ps.filter(pred).contains(e));
    ps.lemma_filter_contains_rev(pred, e);
}

} // verus!
