//! Tool descriptors, tool errors, and the registry that indexes tools by
//! name and lists them in name order.
use vstd::prelude::*;
use crate::security::{PolicyDecision, decision_of};
use crate::task::{ExecutionTarget, PermissionClass};
use crate::text::{
    chars_of, lex_less, lex_lt, lemma_lex_irreflexive, lemma_lex_transitive, lemma_lex_total,
    owned,
};

verus! {

/// What a tool is, what it may do and what input it takes.
#[derive(Debug, Clone)]
pub struct ToolDescriptor {
    pub name: String,
    pub version: String,
    pub description: String,
    pub permission: PermissionClass,
    pub target: ExecutionTarget,
    pub timeout_ms: u64,
    pub idempotent: bool,
    /// The JSON schema of the tool's input, as JSON text.
    pub input_schema: String,
}

impl ToolDescriptor {
    /// An equal copy of the descriptor.
    pub fn duplicate(&self) -> (d: ToolDescriptor)
        ensures
            d == *self,
    {
        ToolDescriptor {
            name: self.name.clone(),
            version: self.version.clone(),
            description: self.description.clone(),
            permission: self.permission,
            target: self.target,
            timeout_ms: self.timeout_ms,
            idempotent: self.idempotent,
            input_schema: self.input_schema.clone(),
        }
    }
}

#[derive(Debug, Clone)]
pub enum ToolError {
    NotFound(String),
    InvalidInput(String),
    PermissionDenied,
    Execution(String),
    Timeout,
    Cancelled,
}

/// `prefix` followed by `rest`.
pub fn prefixed(prefix: &str, rest: &str) -> (s: String)
    ensures
        s@ == prefix@ + rest@,
{
    let mut s = owned(prefix);
    s.append(rest);
    s
}

impl ToolError {
    /// The human-readable message of the error.
    pub fn message(&self) -> (m: String)
        ensures
            m@ == tool_error_message(*self),
    {
        match self {
            ToolError::NotFound(name) => prefixed("tool not found: ", name.as_str()),
            ToolError::InvalidInput(why) => prefixed("input validation failed: ", why.as_str()),
            ToolError::PermissionDenied => owned("permission denied"),
            ToolError::Execution(why) => prefixed("tool execution failed: ", why.as_str()),
            ToolError::Timeout => owned("tool timed out"),
            ToolError::Cancelled => owned("tool cancelled"),
        }
    }
}

pub open spec fn tool_error_message(e: ToolError) -> Seq<char> {
    match e {
        ToolError::NotFound(name) => "tool not found: "@ + name@,
        ToolError::InvalidInput(why) => "input validation failed: "@ + why@,
        ToolError::PermissionDenied => "permission denied"@,
        ToolError::Execution(why) => "tool execution failed: "@ + why@,
        ToolError::Timeout => "tool timed out"@,
        ToolError::Cancelled => "tool cancelled"@,
    }
}

// ----------------------------------------------------------------------------
// Registry
// ----------------------------------------------------------------------------

/// The name under which an entry is registered.
pub open spec fn entry_name<T>(e: (ToolDescriptor, T)) -> Seq<char> {
    e.0.name@
}

/// The last entry of `input` registered under `name`: registering a second
/// tool under a name replaces the first.
pub open spec fn last_named<T>(input: Seq<(ToolDescriptor, T)>, name: Seq<char>) -> Option<
    (ToolDescriptor, T),
>
    decreases input.len(),
{
    if input.len() == 0 {
        None
    } else if entry_name(input.last()) == name {
        Some(input.last())
    } else {
        last_named(input.drop_last(), name)
    }
}

/// Names strictly increasing: sorted, and no name twice.
pub open spec fn names_sorted<T>(entries: Seq<(ToolDescriptor, T)>) -> bool {
    forall|i: int, j: int|
        0 <= i < j < entries.len() ==> lex_lt(entry_name(entries[i]), entry_name(entries[j]))
}

pub open spec fn descriptor_names_sorted(ds: Seq<ToolDescriptor>) -> bool {
    forall|i: int, j: int| 0 <= i < j < ds.len() ==> lex_lt(ds[i].name@, ds[j].name@)
}

/// What a tool reports when it completes.
#[derive(Debug)]
pub struct ToolResult {
    pub invocation_id: u128,
    pub tool: String,
    pub success: bool,
    pub summary: String,
    pub data: serde_json::Value,
    pub duration_ms: u64,
    /// Whether secrets were removed from `data`.
    pub redacted: bool,
}

impl ToolResult {
    /// A successful result of invocation `invocation_id` of `tool`.
    pub fn completed(
        invocation_id: u128,
        tool: String,
        summary: String,
        data: serde_json::Value,
        duration_ms: u64,
        redacted: bool,
    ) -> (r: ToolResult)
        ensures
            r.invocation_id == invocation_id,
            r.tool@ == tool@,
            r.success,
            r.summary@ == summary@,
            r.data == data,
            r.duration_ms == duration_ms,
            r.redacted == redacted,
    {
        ToolResult { invocation_id, tool, success: true, summary, data, duration_ms, redacted }
    }
}

/// Tools indexed by the name in their descriptor, kept in name order.
pub struct ToolRegistry<T> {
    entries: Vec<(ToolDescriptor, T)>,
}

impl<T> Default for ToolRegistry<T> {
    fn default() -> (r: ToolRegistry<T>)
        ensures
            forall|n: Seq<char>| r.entry_for(n) is None,
    {
        ToolRegistry::empty()
    }
}

impl<T> ToolRegistry<T> {
    pub closed spec fn entries(&self) -> Seq<(ToolDescriptor, T)> {
        self.entries@
    }

    /// The entry registered under `name`, if any.
    pub open spec fn entry_for(&self, name: Seq<char>) -> Option<(ToolDescriptor, T)> {
        if exists|i: int| 0 <= i < self.entries().len() && entry_name(self.entries()[i]) == name {
            Some(
                self.entries()[choose|i: int|
                    0 <= i < self.entries().len() && entry_name(self.entries()[i]) == name],
            )
        } else {
            None
        }
    }

    #[verifier::type_invariant]
    closed spec fn entries_sorted(&self) -> bool {
        names_sorted(self.entries@)
    }

    /// The registered names are strictly increasing.
    pub open spec fn well_formed(&self) -> bool {
        names_sorted(self.entries())
    }

    /// An empty registry.
    pub fn empty() -> (r: ToolRegistry<T>)
        ensures
            r.well_formed(),
            r.entries().len() == 0,
            forall|n: Seq<char>| r.entry_for(n) is None,
    {
        ToolRegistry { entries: Vec::new() }
    }

    /// Registers each tool under its descriptor's name; a later tool replaces
    /// an earlier one of the same name.
    pub fn new(tools: Vec<(ToolDescriptor, T)>) -> (r: ToolRegistry<T>)
        ensures
            r.well_formed(),
            forall|n: Seq<char>| r.entry_for(n) == last_named(tools@, n),
    {
        let ghost input = tools@;
        let total = tools.len();
        let mut rest = tools;
        let mut entries: Vec<(ToolDescriptor, T)> = Vec::new();
        let mut j: usize = 0;
        while rest.len() > 0
            invariant
                j <= input.len(),
                rest@ == input.skip(j as int),
                j + rest@.len() == input.len(),
                input.len() == total,
                names_sorted(entries@),
                forall|i: int|
                    0 <= i < entries@.len() ==> last_named(input.take(j as int), entry_name(
                        #[trigger] entries@[i],
                    )) == Some(entries@[i]),
                forall|n: Seq<char>|
                    #[trigger] last_named(input.take(j as int), n) is Some ==> exists|i: int|
                        0 <= i < entries@.len() && entry_name(entries@[i]) == n,
            decreases rest.len(),
        {
            let e = rest.remove(0);
            assert(e == input[j as int]);
            assert(input.take(j + 1).drop_last() =~= input.take(j as int));
            assert(input.take(j + 1) =~= input.take(j as int).push(e));
            assert(rest@ =~= input.skip(j + 1));
            Self::insert_entry(&mut entries, e, Ghost(input.take(j as int)));
            j = j + 1;
        }
        assert(input.take(j as int) =~= input);
        let r = ToolRegistry { entries };
        proof {
            r.lemma_entry_for(input);
        }
        r
    }

    proof fn lemma_entry_for(&self, input: Seq<(ToolDescriptor, T)>)
        requires
            self.well_formed(),
            forall|i: int|
                0 <= i < self.entries().len() ==> last_named(input, entry_name(
                    #[trigger] self.entries()[i],
                )) == Some(self.entries()[i]),
            forall|n: Seq<char>|
                #[trigger] last_named(input, n) is Some ==> exists|i: int|
                    0 <= i < self.entries().len() && entry_name(self.entries()[i]) == n,
        ensures
            forall|n: Seq<char>| self.entry_for(n) == last_named(input, n),
    {
        assert forall|n: Seq<char>| self.entry_for(n) == last_named(input, n) by {
            if exists|i: int| 0 <= i < self.entries().len() && entry_name(self.entries()[i]) == n {
                let i = choose|i: int|
                    0 <= i < self.entries().len() && entry_name(self.entries()[i]) == n;
                assert(last_named(input, entry_name(self.entries()[i])) == Some(self.entries()[i]));
            } else {
                if last_named(input, n) is Some {
                    let i = choose|i: int|
                        0 <= i < self.entries().len() && entry_name(self.entries()[i]) == n;
                }
            }
        }
    }

    /// Puts `e` into the sorted `entries`, replacing an entry of the same name.
    fn insert_entry(
        entries: &mut Vec<(ToolDescriptor, T)>,
        e: (ToolDescriptor, T),
        Ghost(prefix): Ghost<Seq<(ToolDescriptor, T)>>,
    )
        requires
            names_sorted(old(entries)@),
            forall|i: int|
                0 <= i < old(entries)@.len() ==> last_named(prefix, entry_name(
                    #[trigger] old(entries)@[i],
                )) == Some(old(entries)@[i]),
            forall|n: Seq<char>|
                #[trigger] last_named(prefix, n) is Some ==> exists|i: int|
                    0 <= i < old(entries)@.len() && entry_name(old(entries)@[i]) == n,
        ensures
            names_sorted(final(entries)@),
            forall|i: int|
                0 <= i < final(entries)@.len() ==> last_named(prefix.push(e), entry_name(
                    #[trigger] final(entries)@[i],
                )) == Some(final(entries)@[i]),
            forall|n: Seq<char>|
                #[trigger] last_named(prefix.push(e), n) is Some ==> exists|i: int|
                    0 <= i < final(entries)@.len() && entry_name(final(entries)@[i]) == n,
    {
        let ghost old_entries = entries@;
        let ghost name = e.0.name@;
        let ghost next = prefix.push(e);
        assert(next.drop_last() =~= prefix);
        assert(next.last() == e);
        let key = chars_of(e.0.name.as_str());
        let mut pos: usize = 0;
        while pos < entries.len() && lex_less(&chars_of(entries[pos].0.name.as_str()), &key)
            invariant
                pos <= entries.len(),
                entries@ == old_entries,
                key@ == name,
                forall|i: int| 0 <= i < pos ==> lex_lt(entry_name(#[trigger] entries@[i]), name),
            decreases entries.len() - pos,
        {
            pos = pos + 1;
        }
        // every entry from `pos` on is not before `name`
        assert forall|i: int| pos <= i < old_entries.len() implies !lex_lt(
            entry_name(#[trigger] old_entries[i]),
            name,
        ) by {
            if pos < i {
                if lex_lt(entry_name(old_entries[i]), name) {
                    lemma_lex_transitive(
                        entry_name(old_entries[pos as int]),
                        entry_name(old_entries[i]),
                        name,
                    );
                }
            }
        }
        let replace = pos < entries.len() && entries[pos].0.name == e.0.name;
        if replace {
            entries.set(pos, e);
            assert forall|i: int| 0 <= i < entries@.len() implies last_named(
                next,
                entry_name(#[trigger] entries@[i]),
            ) == Some(entries@[i]) by {
                if i != pos {
                    assert(entries@[i] == old_entries[i]);
                    if entry_name(old_entries[i]) == name {
                        if i < pos {
                            lemma_lex_irreflexive(name);
                        } else {
                            lemma_lex_irreflexive(name);
                        }
                    }
                }
            }
            assert forall|n: Seq<char>| #[trigger] last_named(next, n) is Some implies exists|i: int|
                0 <= i < entries@.len() && entry_name(entries@[i]) == n by {
                if n == name {
                    assert(entry_name(entries@[pos as int]) == n);
                } else {
                    assert(last_named(prefix, n) is Some);
                    let i = choose|i: int|
                        0 <= i < old_entries.len() && entry_name(old_entries[i]) == n;
                    assert(entry_name(entries@[i]) == n);
                }
            }
        } else {
            proof {
                if pos < old_entries.len() {
                    lemma_lex_total(entry_name(old_entries[pos as int]), name);
                }
                assert forall|k: int| pos <= k < old_entries.len() implies lex_lt(
                    name,
                    entry_name(#[trigger] old_entries[k]),
                ) by {
                    if k > pos {
                        lemma_lex_transitive(
                            name,
                            entry_name(old_entries[pos as int]),
                            entry_name(old_entries[k]),
                        );
                    }
                }
            }
            entries.insert(pos, e);
            assert forall|i: int, j: int| 0 <= i < j < entries@.len() implies lex_lt(
                entry_name(entries@[i]),
                entry_name(entries@[j]),
            ) by {
                if j < pos {
                    assert(entries@[i] == old_entries[i] && entries@[j] == old_entries[j]);
                } else if j == pos {
                    assert(entries@[i] == old_entries[i]);
                } else if i < pos {
                    assert(entries@[i] == old_entries[i] && entries@[j] == old_entries[j - 1]);
                    lemma_lex_transitive(
                        entry_name(old_entries[i]),
                        name,
                        entry_name(old_entries[j - 1]),
                    );
                } else if i == pos {
                    assert(entries@[j] == old_entries[j - 1]);
                } else {
                    assert(entries@[i] == old_entries[i - 1] && entries@[j] == old_entries[j - 1]);
                }
            }
            assert forall|i: int| 0 <= i < entries@.len() implies last_named(
                next,
                entry_name(#[trigger] entries@[i]),
            ) == Some(entries@[i]) by {
                if i < pos {
                    assert(entries@[i] == old_entries[i]);
                    lemma_lex_irreflexive(name);
                } else if i > pos {
                    assert(entries@[i] == old_entries[i - 1]);
                    if entry_name(old_entries[i - 1]) == name {
                        lemma_lex_irreflexive(name);
                    }
                }
            }
            assert forall|n: Seq<char>| #[trigger] last_named(next, n) is Some implies exists|i: int|
                0 <= i < entries@.len() && entry_name(entries@[i]) == n by {
                if n == name {
                    assert(entry_name(entries@[pos as int]) == n);
                } else {
                    assert(last_named(prefix, n) is Some);
                    let i = choose|i: int|
                        0 <= i < old_entries.len() && entry_name(old_entries[i]) == n;
                    if i < pos {
                        assert(entries@[i] == old_entries[i]);
                    } else {
                        assert(entries@[i + 1] == old_entries[i]);
                    }
                }
            }
        }
    }

    /// The descriptors of all registered tools, in name order.
    pub fn descriptors(&self) -> (ds: Vec<ToolDescriptor>)
        ensures
            ds@.len() == self.entries().len(),
            forall|i: int| 0 <= i < ds@.len() ==> ds@[i] == self.entries()[i].0,
            descriptor_names_sorted(ds@),
            forall|n: Seq<char>|
                self.entry_for(n) is Some <==> exists|i: int| 0 <= i < ds@.len() && ds@[i].name@ == n,
    {
        proof {
            use_type_invariant(self);
        }
        let mut ds: Vec<ToolDescriptor> = Vec::new();
        let mut i: usize = 0;
        while i < self.entries.len()
            invariant
                i <= self.entries@.len(),
                ds@.len() == i,
                forall|k: int| 0 <= k < i ==> ds@[k] == self.entries@[k].0,
            decreases self.entries@.len() - i,
        {
            ds.push(self.entries[i].0.duplicate());
            i = i + 1;
        }
        assert forall|n: Seq<char>|
            self.entry_for(n) is Some <==> exists|i: int| 0 <= i < ds@.len() && ds@[i].name@ == n by {
            if exists|i: int| 0 <= i < ds@.len() && ds@[i].name@ == n {
                let i = choose|i: int| 0 <= i < ds@.len() && ds@[i].name@ == n;
                assert(entry_name(self.entries()[i]) == n);
            }
            if self.entry_for(n) is Some {
                let i = choose|i: int|
                    0 <= i < self.entries().len() && entry_name(self.entries()[i]) == n;
                assert(ds@[i].name@ == n);
            }
        }
        ds
    }

    fn position(&self, name: &str) -> (r: Option<usize>)
        ensures
            r matches Some(i) ==> i < self.entries().len() && entry_name(self.entries()[i as int])
                == name@,
            r is None ==> forall|i: int|
                0 <= i < self.entries().len() ==> entry_name(self.entries()[i]) != name@,
    {
        proof {
            use_type_invariant(self);
        }
        let key = owned(name);
        let mut i: usize = 0;
        while i < self.entries.len()
            invariant
                i <= self.entries@.len(),
                key@ == name@,
                forall|k: int| 0 <= k < i ==> entry_name(self.entries@[k]) != name@,
            decreases self.entries@.len() - i,
        {
            if self.entries[i].0.name == key {
                return Some(i);
            }
            i = i + 1;
        }
        None
    }

    proof fn lemma_entry_at(&self, i: int)
        requires
            self.well_formed(),
            0 <= i < self.entries().len(),
        ensures
            self.entry_for(entry_name(self.entries()[i])) == Some(self.entries()[i]),
    {
        let n = entry_name(self.entries()[i]);
        let k = choose|k: int| 0 <= k < self.entries().len() && entry_name(self.entries()[k]) == n;
        if k != i {
            lemma_lex_irreflexive(n);
        }
    }

    /// The tool registered under `name`, or `NotFound(name)`.
    pub fn get(&self, name: &str) -> (r: Result<&T, ToolError>)
        ensures
            r matches Ok(t) ==> self.entry_for(name@) matches Some(e) && *t == e.1,
            r is Err <==> self.entry_for(name@) is None,
            r matches Err(e) ==> e matches ToolError::NotFound(n) && n@ == name@,
    {
        proof {
            use_type_invariant(self);
        }
        match self.position(name) {
            Some(i) => {
                proof {
                    self.lemma_entry_at(i as int);
                }
                Ok(&self.entries[i].1)
            },
            None => Err(ToolError::NotFound(owned(name))),
        }
    }

    /// The descriptor registered under `name`, or `NotFound(name)`.
    pub fn descriptor(&self, name: &str) -> (r: Result<&ToolDescriptor, ToolError>)
        ensures
            r matches Ok(d) ==> self.entry_for(name@) matches Some(e) && *d == e.0,
            r is Err <==> self.entry_for(name@) is None,
            r matches Err(e) ==> e matches ToolError::NotFound(n) && n@ == name@,
    {
        proof {
            use_type_invariant(self);
        }
        match self.position(name) {
            Some(i) => {
                proof {
                    self.lemma_entry_at(i as int);
                }
                Ok(&self.entries[i].0)
            },
            None => Err(ToolError::NotFound(owned(name))),
        }
    }

    /// The decision that the permission class of the tool `name` stands for.
    pub fn permission_for(&self, name: &str) -> (r: Result<PolicyDecision, ToolError>)
        ensures
            r matches Ok(d) ==> self.entry_for(name@) matches Some(e) && d == decision_of(
                e.0.permission,
            ),
            r is Err <==> self.entry_for(name@) is None,
            r matches Err(e) ==> e matches ToolError::NotFound(n) && n@ == name@,
    {
        proof {
            use_type_invariant(self);
        }
        let descriptor = self.descriptor(name)?;
        Ok(
            match descriptor.permission {
                PermissionClass::Allow => PolicyDecision::Allow,
                PermissionClass::Ask => PolicyDecision::Ask,
                PermissionClass::Deny => PolicyDecision::Deny,
            },
        )
    }
}

/// The names under which `tools` register something.
pub open spec fn registered_names<T>(tools: Seq<(ToolDescriptor, T)>) -> Set<Seq<char>> {
    tools.map_values(|e: (ToolDescriptor, T)| entry_name(e)).to_set()
}

/// The names of a list of descriptors.
pub open spec fn descriptor_names(ds: Seq<ToolDescriptor>) -> Seq<Seq<char>> {
    ds.map_values(|d: ToolDescriptor| d.name@)
}

proof fn lemma_last_named_found<T>(input: Seq<(ToolDescriptor, T)>, name: Seq<char>)
    ensures
        last_named(input, name) is Some <==> exists|i: int|
            0 <= i < input.len() && entry_name(#[trigger] input[i]) == name,
        last_named(input, name) matches Some(e) ==> entry_name(e) == name,
    decreases input.len(),
{
    if input.len() > 0 {
        lemma_last_named_found(input.drop_last(), name);
        if exists|i: int| 0 <= i < input.len() && entry_name(#[trigger] input[i]) == name {
            let i = choose|i: int| 0 <= i < input.len() && entry_name(#[trigger] input[i]) == name;
            if i < input.len() - 1 {
                assert(input.drop_last()[i] == input[i]);
            }
        }
        if last_named(input.drop_last(), name) is Some {
            let i = choose|i: int|
                0 <= i < input.len() - 1 && entry_name(#[trigger] input.drop_last()[i]) == name;
            assert(input[i] == input.drop_last()[i]);
        }
    }
}

/// The registry's listing: the descriptors come strictly ordered by name,
/// one for each name that some tool registers (so as many as there are such
/// names), and under a name shared by several tools the descriptor is that
/// of the last of them.
pub proof fn law_registry_lists_each_name_once<T>(
    tools: Seq<(ToolDescriptor, T)>,
    registry: ToolRegistry<T>,
    ds: Seq<ToolDescriptor>,
)
    requires
        registry.well_formed(),
        forall|n: Seq<char>| #[trigger] registry.entry_for(n) == last_named(tools, n),
        ds.len() == registry.entries().len(),
        forall|i: int| 0 <= i < ds.len() ==> ds[i] == #[trigger] registry.entries()[i].0,
    ensures
        descriptor_names_sorted(ds),
        descriptor_names(ds).to_set() == registered_names(tools),
        ds.len() == registered_names(tools).len(),
        forall|i: int|
            0 <= i < ds.len() ==> (last_named(tools, (#[trigger] ds[i]).name@) matches Some(e) && e.0
                == ds[i]),
{
    let es = registry.entries();
    assert forall|i: int| 0 <= i < ds.len() implies (last_named(tools, (#[trigger] ds[i]).name@) matches Some(
        e,
    ) && e.0 == ds[i]) by {
        let n = ds[i].name@;
        assert(entry_name(es[i]) == n);
        let k = choose|k: int| 0 <= k < es.len() && entry_name(es[k]) == n;
        if k != i {
            lemma_lex_irreflexive(n);
            if k < i {
                assert(lex_lt(entry_name(es[k]), entry_name(es[i])));
            } else {
                assert(lex_lt(entry_name(es[i]), entry_name(es[k])));
            }
        }
        assert(registry.entry_for(n) == Some(es[i]));
    }
    let names = descriptor_names(ds);
    assert forall|i: int, j: int| 0 <= i < j < ds.len() implies lex_lt(ds[i].name@, ds[j].name@) by {
        assert(ds[i] == es[i].0 && ds[j] == es[j].0);
    }
    assert(names.no_duplicates()) by {
        assert forall|i: int, j: int|
            0 <= i < names.len() && 0 <= j < names.len() && i != j implies names[i] != names[j] by {
            lemma_lex_irreflexive(names[i]);
            if i < j {
                assert(lex_lt(ds[i].name@, ds[j].name@));
            } else {
                assert(lex_lt(ds[j].name@, ds[i].name@));
            }
        }
    }
    names.unique_seq_to_set();
    let tn = tools.map_values(|e: (ToolDescriptor, T)| entry_name(e));
    assert forall|n: Seq<char>| names.to_set().contains(n) <==> tn.to_set().contains(n) by {
        lemma_last_named_found(tools, n);
        if names.to_set().contains(n) {
            let i = choose|i: int| 0 <= i < names.len() && names[i] == n;
            assert(names[i] == ds[i].name@);
            let k = choose|k: int| 0 <= k < tools.len() && entry_name(#[trigger] tools[k]) == n;
            assert(tn[k] == n);
        }
        if tn.to_set().contains(n) {
            let k = choose|k: int| 0 <= k < tn.len() && tn[k] == n;
            assert(entry_name(tools[k]) == n);
            assert(registry.entry_for(n) is Some);
            let i = choose|i: int| 0 <= i < es.len() && entry_name(es[i]) == n;
            assert(names[i] == n);
        }
    }
    assert(names.to_set() =~= tn.to_set());
}


// ----------------------------------------------------------------------------
// Tool input
// ----------------------------------------------------------------------------

/// What the tools read of one top-level field of their JSON input.
#[derive(Debug, Clone)]
pub enum InputField {
    /// A JSON string.
    Text(String),
    /// A JSON number that is a non-negative integer fitting in `u64`.
    Unsigned(u64),
    /// A JSON array, by the string items it holds, in order.
    TextList(Vec<String>),
    /// Any other JSON value.
    Other,
}

/// The JSON input of a tool call, by what the tools read of it: whether it
/// is an object, and its top-level fields in order.
#[derive(Debug, Clone)]
pub struct ToolInput {
    pub is_object: bool,
    pub fields: Vec<(String, InputField)>,
}

/// The value of the first field named `key`, if any.
pub open spec fn field_value(fields: Seq<(String, InputField)>, key: Seq<char>) -> Option<InputField>
    decreases fields.len(),
{
    if fields.len() == 0 {
        None
    } else if fields[0].0@ == key {
        Some(fields[0].1)
    } else {
        field_value(fields.skip(1), key)
    }
}

/// The field `key` when it is a string.
pub open spec fn text_field(input: ToolInput, key: Seq<char>) -> Option<Seq<char>> {
    match field_value(input.fields@, key) {
        Some(InputField::Text(s)) => Some(s@),
        _ => None,
    }
}

/// The field `key` when it is a string, or the empty text.
pub open spec fn text_or_empty(input: ToolInput, key: Seq<char>) -> Seq<char> {
    match text_field(input, key) {
        Some(s) => s,
        None => Seq::empty(),
    }
}

/// The field `key` when it is a non-negative integer.
pub open spec fn unsigned_field(input: ToolInput, key: Seq<char>) -> Option<u64> {
    match field_value(input.fields@, key) {
        Some(InputField::Unsigned(n)) => Some(n),
        _ => None,
    }
}

impl ToolInput {
    /// The index of the first field named `key`.
    fn find(&self, key: &str) -> (r: Option<usize>)
        ensures
            r matches Some(i) ==> i < self.fields@.len() && field_value(self.fields@, key@)
                == Some(self.fields@[i as int].1),
            r is None ==> field_value(self.fields@, key@) is None,
    {
        let k = owned(key);
        let mut i: usize = 0;
        assert(self.fields@.skip(0) =~= self.fields@);
        while i < self.fields.len()
            invariant
                i <= self.fields@.len(),
                k@ == key@,
                field_value(self.fields@, key@) == field_value(self.fields@.skip(i as int), key@),
            decreases self.fields@.len() - i,
        {
            assert(self.fields@.skip(i as int).skip(1) =~= self.fields@.skip(i + 1));
            if self.fields[i].0 == k {
                return Some(i);
            }
            i = i + 1;
        }
        None
    }

    /// The field `key` when it is a string.
    pub fn text(&self, key: &str) -> (r: Option<String>)
        ensures
            r matches Some(s) ==> text_field(*self, key@) == Some(s@),
            r is None ==> text_field(*self, key@) is None,
    {
        match self.find(key) {
            Some(i) => match &self.fields[i].1 {
                InputField::Text(s) => Some(s.clone()),
                _ => None,
            },
            None => None,
        }
    }

    /// The field `key` when it is a string, or the empty text.
    pub fn text_or_empty(&self, key: &str) -> (r: String)
        ensures
            r@ == text_or_empty(*self, key@),
    {
        match self.text(key) {
            Some(s) => s,
            None => String::new(),
        }
    }

    /// The field `key` when it is a non-negative integer.
    pub fn unsigned(&self, key: &str) -> (r: Option<u64>)
        ensures
            r == unsigned_field(*self, key@),
    {
        match self.find(key) {
            Some(i) => match &self.fields[i].1 {
                InputField::Unsigned(n) => Some(*n),
                _ => None,
            },
            None => None,
        }
    }

    /// The string items of the array field `key`, or none.
    pub fn text_list(&self, key: &str) -> (r: Vec<String>)
        ensures
            field_value(self.fields@, key@) matches Some(InputField::TextList(l)) ==> r@ == l@,
            !(field_value(self.fields@, key@) is Some && field_value(self.fields@, key@)->0 is TextList) ==> r@.len() == 0,
    {
        match self.find(key) {
            Some(i) => match &self.fields[i].1 {
                InputField::TextList(l) => {
                    let mut out: Vec<String> = Vec::new();
                    let mut j: usize = 0;
                    while j < l.len()
                        invariant
                            j <= l@.len(),
                            out@ == l@.take(j as int),
                        decreases l@.len() - j,
                    {
                        out.push(l[j].clone());
                        assert(out@ =~= l@.take(j + 1));
                        j = j + 1;
                    }
                    assert(l@.take(l@.len() as int) =~= l@);
                    out
                },
                _ => Vec::new(),
            },
            None => Vec::new(),
        }
    }
}

/// `InvalidInput` with the given message.
pub fn invalid_input(why: &str) -> (e: ToolError)
    ensures
        e matches ToolError::InvalidInput(m) && m@ == why@,
{
    ToolError::InvalidInput(owned(why))
}

} // verus!
