//! The workspace file tools: read, search, list and write, with their
//! descriptors, input checks and the line search.
use vstd::prelude::*;
use crate::security::{Operation, PolicyEngine, policy_permits};
use crate::task::{ExecutionTarget, PermissionClass};
use crate::text::{
    chars_of, contains_exec, lines, lines_exec, occurs, string_of, owned, char_views, lex_less, lex_lt,
    lemma_lex_transitive, lemma_lex_total, lemma_lex_irreflexive, string_views,
};
use crate::tools::{
    ToolDescriptor, ToolError, ToolInput, invalid_input, text_field, text_or_empty,
    unsigned_field,
};

verus! {

#[derive(Debug, Clone, Copy, PartialEq, Eq, Structural)]
pub enum FsKind {
    Read,
    Search,
    List,
    Write,
}

/// One of the four workspace file tools.
#[derive(Debug)]
pub struct FileSystemTool {
    kind: FsKind,
    policy: Operation,
}

pub open spec fn fs_name(kind: FsKind) -> Seq<char> {
    match kind {
        FsKind::Read => "file_read"@,
        FsKind::Search => "file_search"@,
        FsKind::List => "directory_list"@,
        FsKind::Write => "file_write"@,
    }
}

pub open spec fn fs_operation(kind: FsKind) -> Operation {
    match kind {
        FsKind::Read => Operation::FileRead,
        FsKind::Search | FsKind::List => Operation::FileSearch,
        FsKind::Write => Operation::FileWrite,
    }
}

pub open spec fn fs_description(kind: FsKind) -> Seq<char> {
    match kind {
        FsKind::Read => "Read a text file inside the active workspace"@,
        FsKind::Search => "Search text files inside the active workspace"@,
        FsKind::List => "List entries inside the active workspace"@,
        FsKind::Write => "Write text to a file inside the active workspace"@,
    }
}

pub open spec fn fs_permission(kind: FsKind) -> PermissionClass {
    match kind {
        FsKind::Write => PermissionClass::Ask,
        _ => PermissionClass::Allow,
    }
}

pub open spec fn fs_schema(kind: FsKind) -> Seq<char> {
    match kind {
        FsKind::Read | FsKind::List => "{\"type\":\"object\",\"properties\":{\"path\":{\"type\":\"string\"}},\"required\":[\"path\"]}"@,
        FsKind::Search => "{\"type\":\"object\",\"properties\":{\"path\":{\"type\":\"string\"},\"query\":{\"type\":\"string\"},\"max_results\":{\"type\":\"integer\",\"minimum\":1,\"maximum\":100}},\"required\":[\"path\",\"query\"]}"@,
        FsKind::Write => "{\"type\":\"object\",\"properties\":{\"path\":{\"type\":\"string\"},\"content\":{\"type\":\"string\"}},\"required\":[\"path\",\"content\"]}"@,
    }
}

/// The number of matches a search returns: `max_results` when given, 25
/// otherwise, never more than 100.
pub open spec fn search_limit(input: ToolInput) -> int {
    match unsigned_field(input, "max_results"@) {
        Some(n) => if n < 100 { n as int } else { 100 },
        None => 25,
    }
}

/// The matching lines among the first `k`: 1-based line number and text.
pub open spec fn matches_upto(ls: Seq<Seq<char>>, query: Seq<char>, k: int) -> Seq<(int, Seq<char>)>
    decreases k,
{
    if k <= 0 {
        Seq::empty()
    } else if occurs(ls[k - 1], query) {
        matches_upto(ls, query, k - 1).push((k, ls[k - 1]))
    } else {
        matches_upto(ls, query, k - 1)
    }
}

/// The first `max` lines of `content` that contain `query`, numbered from 1.
pub open spec fn search_result(content: Seq<char>, query: Seq<char>, max: int) -> Seq<(int, Seq<char>)> {
    let all = matches_upto(lines(content), query, lines(content).len() as int);
    if all.len() <= max {
        all
    } else {
        all.take(max)
    }
}

pub open spec fn match_views(v: Seq<(usize, String)>) -> Seq<(int, Seq<char>)> {
    v.map_values(|m: (usize, String)| (m.0 as int, m.1@))
}

proof fn lemma_matches_prefix(ls: Seq<Seq<char>>, query: Seq<char>, k: int, m: int)
    requires
        0 <= k <= m,
    ensures
        matches_upto(ls, query, k).len() <= matches_upto(ls, query, m).len(),
        matches_upto(ls, query, m).take(matches_upto(ls, query, k).len() as int)
            == matches_upto(ls, query, k),
    decreases m - k,
{
    if k < m {
        lemma_matches_prefix(ls, query, k, m - 1);
        let a = matches_upto(ls, query, k);
        let b = matches_upto(ls, query, m - 1);
        assert(matches_upto(ls, query, m).take(a.len() as int) =~= b.take(a.len() as int));
    } else {
        assert(matches_upto(ls, query, m).take(matches_upto(ls, query, k).len() as int)
            =~= matches_upto(ls, query, k));
    }
}

impl FileSystemTool {
    pub closed spec fn kind(&self) -> FsKind {
        self.kind
    }

    #[verifier::type_invariant]
    closed spec fn operation_matches(&self) -> bool {
        self.policy == fs_operation(self.kind)
    }

    pub fn read() -> (t: FileSystemTool)
        ensures
            t.kind() == FsKind::Read,
    {
        FileSystemTool { kind: FsKind::Read, policy: Operation::FileRead }
    }

    pub fn search() -> (t: FileSystemTool)
        ensures
            t.kind() == FsKind::Search,
    {
        FileSystemTool { kind: FsKind::Search, policy: Operation::FileSearch }
    }

    pub fn list() -> (t: FileSystemTool)
        ensures
            t.kind() == FsKind::List,
    {
        FileSystemTool { kind: FsKind::List, policy: Operation::FileSearch }
    }

    pub fn write() -> (t: FileSystemTool)
        ensures
            t.kind() == FsKind::Write,
    {
        FileSystemTool { kind: FsKind::Write, policy: Operation::FileWrite }
    }

    /// Which of the four tools this is.
    pub fn tool_kind(&self) -> (k: FsKind)
        ensures
            k == self.kind(),
    {
        self.kind
    }

    /// The tool's name.
    pub fn name(&self) -> (n: String)
        ensures
            n@ == fs_name(self.kind()),
    {
        match self.kind {
            FsKind::Read => owned("file_read"),
            FsKind::Search => owned("file_search"),
            FsKind::List => owned("directory_list"),
            FsKind::Write => owned("file_write"),
        }
    }

    /// The operation that the policy is asked about.
    pub fn operation(&self) -> (o: Operation)
        ensures
            o == fs_operation(self.kind()),
    {
        proof {
            use_type_invariant(self);
        }
        self.policy
    }

    pub fn descriptor(&self) -> (d: ToolDescriptor)
        ensures
            d.name@ == fs_name(self.kind()),
            d.version@ == "1.0.0"@,
            d.description@ == fs_description(self.kind()),
            d.permission == fs_permission(self.kind()),
            d.target == ExecutionTarget::Host,
            d.timeout_ms == 10_000,
            d.idempotent == (self.kind() != FsKind::Write),
            d.input_schema@ == fs_schema(self.kind()),
    {
        let (description, permission, schema) = match self.kind {
            FsKind::Read => (
                "Read a text file inside the active workspace",
                PermissionClass::Allow,
                "{\"type\":\"object\",\"properties\":{\"path\":{\"type\":\"string\"}},\"required\":[\"path\"]}",
            ),
            FsKind::Search => (
                "Search text files inside the active workspace",
                PermissionClass::Allow,
                "{\"type\":\"object\",\"properties\":{\"path\":{\"type\":\"string\"},\"query\":{\"type\":\"string\"},\"max_results\":{\"type\":\"integer\",\"minimum\":1,\"maximum\":100}},\"required\":[\"path\",\"query\"]}",
            ),
            FsKind::List => (
                "List entries inside the active workspace",
                PermissionClass::Allow,
                "{\"type\":\"object\",\"properties\":{\"path\":{\"type\":\"string\"}},\"required\":[\"path\"]}",
            ),
            FsKind::Write => (
                "Write text to a file inside the active workspace",
                PermissionClass::Ask,
                "{\"type\":\"object\",\"properties\":{\"path\":{\"type\":\"string\"},\"content\":{\"type\":\"string\"}},\"required\":[\"path\",\"content\"]}",
            ),
        };
        ToolDescriptor {
            name: self.name(),
            version: owned("1.0.0"),
            description: owned(description),
            permission,
            target: ExecutionTarget::Host,
            timeout_ms: 10_000,
            idempotent: self.kind != FsKind::Write,
            input_schema: owned(schema),
        }
    }

    /// The `path` field, which must be a string.
    pub fn input_path(input: &ToolInput) -> (r: Result<String, ToolError>)
        ensures
            r matches Ok(p) ==> text_field(*input, "path"@) == Some(p@),
            r is Err <==> text_field(*input, "path"@) is None,
            r matches Err(e) ==> e matches ToolError::InvalidInput(m) && m@
                == "path must be a string"@,
    {
        match input.text("path") {
            Some(p) => Ok(p),
            None => Err(invalid_input("path must be a string")),
        }
    }

    /// The checks that follow the path: a search needs a non-empty `query`,
    /// a write needs a string `content`.
    pub fn check_fields(&self, input: &ToolInput) -> (r: Result<(), ToolError>)
        ensures
            r is Err <==> ((self.kind() == FsKind::Search && text_or_empty(*input, "query"@).len()
                == 0) || (self.kind() == FsKind::Write && text_field(*input, "content"@) is None)),
            r matches Err(e) ==> e matches ToolError::InvalidInput(m) && (m@
                == "query must not be empty"@ || m@ == "content must be a string"@),
            (r is Err && self.kind() == FsKind::Search) ==> (r matches Err(
                ToolError::InvalidInput(m),
            ) && m@ == "query must not be empty"@),
            (r is Err && self.kind() == FsKind::Write) ==> (r matches Err(
                ToolError::InvalidInput(m),
            ) && m@ == "content must be a string"@),
    {
        if self.kind == FsKind::Search && input.text_or_empty("query").as_str().is_empty() {
            return Err(invalid_input("query must not be empty"));
        }
        if self.kind == FsKind::Write && input.text("content").is_none() {
            return Err(invalid_input("content must be a string"));
        }
        Ok(())
    }

    /// `PermissionDenied` unless the policy lets the tool's operation proceed
    /// inside the workspace.
    pub fn authorize(&self, policy: &PolicyEngine, approved: bool) -> (r: Result<(), ToolError>)
        ensures
            r is Ok <==> policy_permits(
                policy.allows_shell_read_only(),
                fs_operation(self.kind()),
                true,
                approved,
            ),
            r is Err ==> r matches Err(ToolError::PermissionDenied),
    {
        match policy.require(self.operation(), true, approved) {
            Ok(()) => Ok(()),
            Err(_) => Err(ToolError::PermissionDenied),
        }
    }

    /// How many matches a search returns (see [`search_limit`]).
    pub fn search_limit(input: &ToolInput) -> (n: usize)
        ensures
            n as int == search_limit(*input),
    {
        match input.unsigned("max_results") {
            Some(n) => if n < 100 {
                n as usize
            } else {
                100
            },
            None => 25,
        }
    }

    /// "`name` completed".
    pub fn completion_summary(&self) -> (s: String)
        ensures
            s@ == fs_name(self.kind()) + " completed"@,
    {
        let name = self.name();
        let mut s = name;
        s.append(" completed");
        s
    }
}

/// Every entry of `matches_upto(ls, query, k)` is a matching line among the
/// first `k` with its number, in increasing order, and none is left out.
proof fn lemma_matches_upto_exact(ls: Seq<Seq<char>>, query: Seq<char>, k: int)
    requires
        0 <= k <= ls.len(),
    ensures
        forall|i: int|
            0 <= i < matches_upto(ls, query, k).len() ==> {
                let m = #[trigger] matches_upto(ls, query, k)[i];
                &&& 1 <= m.0 <= k
                &&& m.1 == ls[m.0 - 1]
                &&& occurs(m.1, query)
            },
        forall|i: int, j: int|
            0 <= i < j < matches_upto(ls, query, k).len() ==> #[trigger] matches_upto(ls, query, k)[i].0
                < #[trigger] matches_upto(ls, query, k)[j].0,
        forall|n: int|
            1 <= n <= k && occurs(#[trigger] ls[n - 1], query) ==> exists|i: int|
                0 <= i < matches_upto(ls, query, k).len() && matches_upto(ls, query, k)[i].0 == n,
    decreases k,
{
    if k > 0 {
        lemma_matches_upto_exact(ls, query, k - 1);
        let prev = matches_upto(ls, query, k - 1);
        let cur = matches_upto(ls, query, k);
        if occurs(ls[k - 1], query) {
            assert(cur == prev.push((k, ls[k - 1])));
            assert forall|i: int| 0 <= i < cur.len() implies {
                let m = #[trigger] cur[i];
                &&& 1 <= m.0 <= k
                &&& m.1 == ls[m.0 - 1]
                &&& occurs(m.1, query)
            } by {
                if i < prev.len() {
                    assert(cur[i] == prev[i]);
                }
            }
            assert forall|i: int, j: int| 0 <= i < j < cur.len() implies #[trigger] cur[i].0
                < #[trigger] cur[j].0 by {
                assert(cur[i] == prev[i]);
                if j < prev.len() {
                    assert(cur[j] == prev[j]);
                }
            }
            assert forall|n: int| 1 <= n <= k && occurs(#[trigger] ls[n - 1], query) implies exists|i: int|
                0 <= i < cur.len() && cur[i].0 == n by {
                if n == k {
                    assert(cur[prev.len() as int].0 == n);
                } else {
                    let i = choose|i: int| 0 <= i < prev.len() && prev[i].0 == n;
                    assert(cur[i] == prev[i]);
                }
            }
        } else {
            assert(cur == prev);
        }
    }
}

/// What a line search finds: at most `max` matches, each a line of the
/// content that contains the query, given with its 1-based number, in file
/// order; and no matching line is skipped before the last one found, nor at
/// all when fewer than `max` were found. So the result is the first `max`
/// matching lines.
pub proof fn law_search_finds_the_first_matches(content: Seq<char>, query: Seq<char>, max: int)
    requires
        0 <= max,
    ensures
        ({
            let r = search_result(content, query, max);
            let ls = lines(content);
            &&& r.len() <= max
            &&& forall|i: int|
                0 <= i < r.len() ==> {
                    &&& 1 <= (#[trigger] r[i]).0 <= ls.len()
                    &&& r[i].1 == ls[r[i].0 - 1]
                    &&& occurs(r[i].1, query)
                }
            &&& forall|i: int, j: int| 0 <= i < j < r.len() ==> (#[trigger] r[i]).0 < (#[trigger] r[j]).0
            &&& forall|n: int|
                1 <= n <= ls.len() && occurs(#[trigger] ls[n - 1], query) && (r.len() < max || (r.len()
                    > 0 && n <= r[r.len() - 1].0)) ==> exists|i: int| 0 <= i < r.len() && r[i].0 == n
        }),
{
    let ls = lines(content);
    let all = matches_upto(ls, query, ls.len() as int);
    let r = search_result(content, query, max);
    lemma_matches_upto_exact(ls, query, ls.len() as int);
    assert forall|i: int| 0 <= i < r.len() implies r[i] == all[i] by {}
    assert forall|n: int|
        1 <= n <= ls.len() && occurs(#[trigger] ls[n - 1], query) && (r.len() < max || (r.len()
            > 0 && n <= r[r.len() - 1].0)) implies exists|i: int| 0 <= i < r.len() && r[i].0 == n by {
        let p = choose|p: int| 0 <= p < all.len() && all[p].0 == n;
        if all.len() <= max {
            assert(r == all);
            assert(r[p].0 == n);
        } else if r.len() < max {
            assert(r == all);
            assert(r[p].0 == n);
        } else {
            let last = r.len() - 1;
            if p > last {
                assert(all[last].0 < all[p].0);
                assert(r[last] == all[last]);
            }
            assert(r[p] == all[p]);
        }
    }
}

/// The first `max` lines of `content` that contain `query`, with their
/// 1-based line numbers.
pub fn search_lines(content: &str, query: &str, max: usize) -> (r: Vec<(usize, String)>)
    ensures
        match_views(r@) == search_result(content@, query@, max as int),
{
    let text = chars_of(content);
    let q = chars_of(query);
    let ls = lines_exec(&text);
    let ghost lv = lines(content@);
    let mut out: Vec<(usize, String)> = Vec::new();
    let mut k: usize = 0;
    while k < ls.len() && out.len() < max
        invariant
            char_views(ls@) == lv,
            lv == lines(content@),
            q@ == query@,
            k <= ls@.len(),
            out@.len() <= max,
            match_views(out@) == matches_upto(lv, query@, k as int),
        decreases ls@.len() - k,
    {
        assert(ls@[k as int]@ == lv[k as int]);
        if contains_exec(&ls[k], &q) {
            let line = string_of(ls[k].as_slice());
            out.push((k + 1, line));
            assert(match_views(out@) =~= matches_upto(lv, query@, k as int).push(
                ((k + 1) as int, lv[k as int]),
            ));
        }
        k = k + 1;
    }
    proof {
        lemma_matches_prefix(lv, query@, k as int, lv.len() as int);
        if out@.len() < max {
            assert(k == lv.len());
        }
    }
    out
}

/// The most entries a directory listing reads.
pub const MAX_LISTED_ENTRIES: usize = 500;

/// Names in lexicographic order (equal names side by side).
pub open spec fn names_in_order(s: Seq<Seq<char>>) -> bool {
    forall|i: int, j: int| 0 <= i < j < s.len() ==> !lex_lt(#[trigger] s[j], #[trigger] s[i])
}

proof fn lemma_insert_multiset<A>(s: Seq<A>, pos: int, a: A)
    requires
        0 <= pos <= s.len(),
    ensures
        s.insert(pos, a).to_multiset() =~= s.to_multiset().insert(a),
{
    broadcast use vstd::multiset::group_multiset_axioms;
    let t = s.take(pos);
    let r = s.subrange(pos, s.len() as int);
    assert(s.insert(pos, a) =~= t.push(a) + r);
    assert(s =~= t + r);
    vstd::seq_lib::lemma_multiset_commutative(t.push(a), r);
    vstd::seq_lib::lemma_multiset_commutative(t, r);
    t.to_multiset_ensures();
    assert(t.push(a).to_multiset() =~= t.to_multiset().insert(a));
}

/// The directory entries, sorted by name.
pub fn sort_listing(names: Vec<String>) -> (r: Vec<String>)
    ensures
        names_in_order(string_views(r@)),
        string_views(r@).to_multiset() == string_views(names@).to_multiset(),
{
    let mut out: Vec<String> = Vec::new();
    let mut i: usize = 0;
    assert(string_views(names@.take(0)) =~= string_views(out@));
    while i < names.len()
        invariant
            i <= names@.len(),
            names_in_order(string_views(out@)),
            string_views(out@).to_multiset() == string_views(names@.take(i as int)).to_multiset(),
        decreases names@.len() - i,
    {
        let x = names[i].clone();
        let key = chars_of(x.as_str());
        let mut pos: usize = 0;
        while pos < out.len() && !lex_less(&key, &chars_of(out[pos].as_str()))
            invariant
                pos <= out@.len(),
                key@ == x@,
                forall|k: int| 0 <= k < pos ==> !lex_lt(x@, #[trigger] string_views(out@)[k]),
            decreases out@.len() - pos,
        {
            assert(string_views(out@)[pos as int] == out@[pos as int]@);
            pos = pos + 1;
        }
        let ghost old_v = string_views(out@);
        proof {
            // everything from `pos` on comes after `x`
            if pos < old_v.len() {
                assert(lex_lt(x@, old_v[pos as int]));
            }
            assert forall|k: int| pos <= k < old_v.len() implies lex_lt(x@, #[trigger] old_v[k]) by {
                if k > pos {
                    lemma_lex_total(old_v[pos as int], old_v[k]);
                    if old_v[pos as int] != old_v[k] {
                        lemma_lex_transitive(x@, old_v[pos as int], old_v[k]);
                    }
                }
            }
            lemma_insert_multiset(old_v, pos as int, x@);
        }
        out.insert(pos, x);
        assert(string_views(out@) =~= old_v.insert(pos as int, x@));
        assert(names@.take(i + 1) =~= names@.take(i as int).push(names@[i as int]));
        proof {
            string_views(names@.take(i as int)).to_multiset_ensures();
            assert(string_views(names@.take(i + 1)) =~= string_views(names@.take(i as int)).push(x@));
            let v = string_views(out@);
            assert forall|a: int, b: int| 0 <= a < b < v.len() implies !lex_lt(#[trigger] v[b], #[trigger] v[a]) by {
                if b < pos {
                    assert(v[a] == old_v[a] && v[b] == old_v[b]);
                } else if b == pos {
                    assert(v[a] == old_v[a]);
                    assert(!lex_lt(x@, old_v[a]));
                } else if a < pos {
                    assert(v[a] == old_v[a] && v[b] == old_v[b - 1]);
                    assert(lex_lt(x@, old_v[b - 1]));
                    if lex_lt(old_v[b - 1], old_v[a]) {
                        lemma_lex_transitive(x@, old_v[b - 1], old_v[a]);
                    }
                } else if a == pos {
                    assert(v[b] == old_v[b - 1]);
                    assert(lex_lt(x@, old_v[b - 1]));
                    if lex_lt(old_v[b - 1], x@) {
                        lemma_lex_transitive(x@, old_v[b - 1], x@);
                        lemma_lex_irreflexive(x@);
                    }
                } else {
                    assert(v[a] == old_v[a - 1] && v[b] == old_v[b - 1]);
                }
            }
        }
        i = i + 1;
    }
    assert(names@.take(names@.len() as int) =~= names@);
    out
}

} // verus!
