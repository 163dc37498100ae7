use vstd::prelude::*;

verus! {

/// The semantic roles that can be attached to named scene nodes.
#[derive(Clone, Copy, Debug, PartialEq, Eq, Structural)]
pub enum Role {
    Turret,
    Cannon,
}

/// One authoring-time rule: a node whose name contains the pattern,
/// compared case-insensitively over ASCII letters, carries the role.
#[derive(Clone, Debug)]
pub struct TagRule {
    pub pattern: Vec<u8>,
    pub role: Role,
}

/// One attached tag: a node, by its handle, and its role.
#[derive(Clone, Copy, Debug, PartialEq, Eq, Structural)]
pub struct TagEntry {
    pub node: u64,
    pub role: Role,
}

/// The ASCII codes of 'A' and 'Z', and the distance from an upper-case
/// ASCII letter down to its lower-case counterpart.
pub const ASCII_UPPER_A: u8 = 65;

pub const ASCII_UPPER_Z: u8 = 90;

pub const ASCII_CASE_OFFSET: u8 = 32;

/// A byte with ASCII upper-case letters folded to lower case.
pub open spec fn spec_lower(b: u8) -> u8 {
    if ASCII_UPPER_A <= b <= ASCII_UPPER_Z {
        (b + ASCII_CASE_OFFSET) as u8
    } else {
        b
    }
}

/// Whether the pattern matches the name at offset `at`, comparing
/// bytes case-insensitively.
pub open spec fn spec_match_at(name: Seq<u8>, pat: Seq<u8>, at: int) -> bool {
    forall|j: int| 0 <= j < pat.len() ==> spec_lower(name[at + j]) == spec_lower(pat[j])
}

/// Whether the name contains the pattern at any offset, comparing
/// case-insensitively. The empty pattern is contained in every name.
pub open spec fn spec_contains_ci(name: Seq<u8>, pat: Seq<u8>) -> bool {
    exists|at: int| 0 <= at && at + pat.len() <= name.len() && spec_match_at(name, pat, at)
}

/// The role of the first rule whose pattern the name contains, if any
/// rule matches.
pub open spec fn spec_classify(rules: Seq<(Seq<u8>, Role)>, name: Seq<u8>) -> Option<Role>
    decreases rules.len(),
{
    if rules.len() == 0 {
        None
    } else if spec_contains_ci(name, rules[0].0) {
        Some(rules[0].1)
    } else {
        spec_classify(rules.drop_first(), name)
    }
}

/// The tag map after one node is scanned: a node already tagged is
/// never re-evaluated, a name no rule matches attaches nothing, and
/// otherwise the matched role is attached to the node.
pub open spec fn spec_scanned(
    m: Map<u64, Role>,
    rules: Seq<(Seq<u8>, Role)>,
    node: u64,
    name: Seq<u8>,
) -> Map<u64, Role> {
    if m.dom().contains(node) {
        m
    } else {
        match spec_classify(rules, name) {
            Some(role) => m.insert(node, role),
            None => m,
        }
    }
}

/// The tag map after a run of nodes is scanned in order.
pub open spec fn spec_scan_all(
    m: Map<u64, Role>,
    rules: Seq<(Seq<u8>, Role)>,
    nodes: Seq<(u64, Seq<u8>)>,
) -> Map<u64, Role>
    decreases nodes.len(),
{
    if nodes.len() == 0 {
        m
    } else {
        spec_scanned(
            spec_scan_all(m, rules, nodes.drop_last()),
            rules,
            nodes.last().0,
            nodes.last().1,
        )
    }
}

/// A lookup in a tag map.
pub open spec fn spec_lookup(m: Map<u64, Role>, node: u64) -> Option<Role> {
    if m.dom().contains(node) {
        Some(m[node])
    } else {
        None
    }
}

/// The rule list as a sequence of pattern and role pairs.
pub open spec fn spec_rules_view(rules: Seq<TagRule>) -> Seq<(Seq<u8>, Role)> {
    rules.map_values(|r: TagRule| (r.pattern@, r.role))
}

/// The node and name pairs of a scanned batch.
pub open spec fn spec_named_nodes(nodes: Seq<(u64, Vec<u8>)>) -> Seq<(u64, Seq<u8>)> {
    nodes.map_values(|p: (u64, Vec<u8>)| (p.0, p.1@))
}

/// The map that a list of tag entries denotes.
pub open spec fn spec_tag_map(s: Seq<TagEntry>) -> Map<u64, Role>
    decreases s.len(),
{
    if s.len() == 0 {
        Map::empty()
    } else {
        spec_tag_map(s.drop_last()).insert(s.last().node, s.last().role)
    }
}

/// Whether no node appears twice in a list of tag entries.
pub open spec fn spec_entries_unique(s: Seq<TagEntry>) -> bool {
    forall|i: int, j: int| 0 <= i < j < s.len() ==> s[i].node != s[j].node
}

/// Folds one byte to ASCII lower case.
fn lower_byte(b: u8) -> (l: u8)
    ensures
        l == spec_lower(b),
{
    if b >= ASCII_UPPER_A && b <= ASCII_UPPER_Z {
        b + ASCII_CASE_OFFSET
    } else {
        b
    }
}

/// Whether the pattern matches the name at offset `at`.
fn match_at(name: &[u8], pat: &[u8], at: usize) -> (m: bool)
    requires
        at + pat@.len() <= name@.len(),
    ensures
        m == spec_match_at(name@, pat@, at as int),
{
    let n = name.len();
    let p = pat.len();
    let mut j: usize = 0;
    while j < p
        invariant
            n == name@.len(),
            p == pat@.len(),
            at + p <= n,
            j <= p,
            forall|k: int| 0 <= k < j ==> spec_lower(name@[at + k]) == spec_lower(pat@[k]),
        decreases p - j,
    {
        if lower_byte(name[at + j]) != lower_byte(pat[j]) {
            assert(spec_lower(name@[at + j]) != spec_lower(pat@[j as int]));
            return false;
        }
        j = j + 1;
    }
    true
}

/// Whether the name contains the pattern at any offset, comparing
/// ASCII letters case-insensitively.
pub fn find_ci(name: &[u8], pat: &[u8]) -> (found: bool)
    ensures
        found == spec_contains_ci(name@, pat@),
{
    let n = name.len();
    let p = pat.len();
    if p > n {
        return false;
    }
    let mut i: usize = 0;
    while i <= n - p
        invariant
            p <= n,
            n == name@.len(),
            p == pat@.len(),
            i <= n - p + 1,
            forall|k: int| 0 <= k < i ==> !spec_match_at(name@, pat@, k),
        decreases n - p + 1 - i,
    {
        if match_at(name, pat, i) {
            assert(spec_contains_ci(name@, pat@));
            return true;
        }
        i = i + 1;
    }
    false
}

/// Resolves roles for named scene nodes as they appear: holds the
/// authored pattern rules, and the tags attached so far. A tag, once
/// attached, is never re-evaluated or removed.
#[derive(Clone, Debug)]
pub struct TagScanner {
    rules: Vec<TagRule>,
    entries: Vec<TagEntry>,
}

impl TagScanner {
    /// The rules the scanner was built with.
    pub closed spec fn rules_seq(self) -> Seq<(Seq<u8>, Role)> {
        spec_rules_view(self.rules@)
    }

    /// The tags attached so far, as a map from node handle to role.
    pub closed spec fn tags(self) -> Map<u64, Role> {
        spec_tag_map(self.entries@)
    }

    /// No node carries two tags.
    pub closed spec fn wf(self) -> bool {
        spec_entries_unique(self.entries@)
    }

    /// A scanner with the given rules and no tag attached yet.
    pub fn new(rules: Vec<TagRule>) -> (s: TagScanner)
        ensures
            s.wf(),
            s.rules_seq() == spec_rules_view(rules@),
            s.tags() == Map::<u64, Role>::empty(),
    {
        TagScanner { rules, entries: Vec::new() }
    }

    /// The role the rules give a name: that of the first rule whose
    /// pattern the name contains.
    pub fn classify(&self, name: &[u8]) -> (r: Option<Role>)
        ensures
            r == spec_classify(self.rules_seq(), name@),
    {
        let ghost rseq = self.rules_seq();
        proof {
            assert(rseq.skip(0) =~= rseq);
        }
        let mut i: usize = 0;
        while i < self.rules.len()
            invariant
                i <= self.rules.len(),
                rseq == self.rules_seq(),
                rseq.len() == self.rules@.len(),
                spec_classify(rseq, name@) == spec_classify(rseq.skip(i as int), name@),
            decreases self.rules.len() - i,
        {
            let rule = &self.rules[i];
            let found = find_ci(name, rule.pattern.as_slice());
            proof {
                assert(rseq.skip(i as int)[0] == rseq[i as int]);
                assert(rseq[i as int] == (rule.pattern@, rule.role));
            }
            if found {
                return Some(rule.role);
            }
            proof {
                assert(rseq.skip(i as int).drop_first() =~= rseq.skip(i as int + 1));
            }
            i = i + 1;
        }
        proof {
            assert(rseq.skip(i as int) =~= Seq::<(Seq<u8>, Role)>::empty());
        }
        None
    }

    /// The tag attached to a node, if any.
    pub fn role_of(&self, node: u64) -> (r: Option<Role>)
        requires
            self.wf(),
        ensures
            r == spec_lookup(self.tags(), node),
    {
        let mut i: usize = 0;
        while i < self.entries.len()
            invariant
                i <= self.entries.len(),
                spec_entries_unique(self.entries@),
                forall|k: int| 0 <= k < i ==> self.entries@[k].node != node,
            decreases self.entries.len() - i,
        {
            if self.entries[i].node == node {
                proof {
                    lemma_tag_map_value(self.entries@, i as int);
                }
                return Some(self.entries[i].role);
            }
            i = i + 1;
        }
        proof {
            lemma_tag_map_not_contains(self.entries@, node);
        }
        None
    }

    /// Scans one newly appeared named node: attaches the role its
    /// name resolves to, unless the node is already tagged or no rule
    /// matches. Scanning the same node again changes nothing.
    pub fn scan_node(&mut self, node: u64, name: &[u8])
        requires
            old(self).wf(),
        ensures
            final(self).wf(),
            final(self).rules_seq() == old(self).rules_seq(),
            final(self).tags() == spec_scanned(
                old(self).tags(),
                old(self).rules_seq(),
                node,
                name@,
            ),
    {
        let existing = self.role_of(node);
        if existing.is_none() {
            let role = self.classify(name);
            match role {
                Some(r) => {
                    proof {
                        assert forall|k: int|
                            0 <= k < self.entries@.len() implies self.entries@[k].node
                            != node by {
                            if self.entries@[k].node == node {
                                lemma_tag_map_value(self.entries@, k);
                            }
                        }
                    }
                    self.entries.push(TagEntry { node, role: r });
                    proof {
                        assert(self.entries@.drop_last() =~= old(self).entries@);
                    }
                },
                None => {},
            }
        }
    }

    /// Scans a batch of newly appeared named nodes in order, as one
    /// frame's worth of scene-load notifications.
    pub fn scan_nodes(&mut self, nodes: &Vec<(u64, Vec<u8>)>)
        requires
            old(self).wf(),
        ensures
            final(self).wf(),
            final(self).rules_seq() == old(self).rules_seq(),
            final(self).tags() == spec_scan_all(
                old(self).tags(),
                old(self).rules_seq(),
                spec_named_nodes(nodes@),
            ),
    {
        let ghost m0 = self.tags();
        let ghost rules = self.rules_seq();
        let ghost mapped = spec_named_nodes(nodes@);
        let mut i: usize = 0;
        while i < nodes.len()
            invariant
                i <= nodes.len(),
                self.wf(),
                self.rules_seq() == rules,
                mapped == spec_named_nodes(nodes@),
                mapped.len() == nodes@.len(),
                self.tags() == spec_scan_all(m0, rules, mapped.take(i as int)),
            decreases nodes.len() - i,
        {
            let node = nodes[i].0;
            self.scan_node(node, nodes[i].1.as_slice());
            proof {
                assert(mapped.take(i as int + 1).drop_last() =~= mapped.take(i as int));
                assert(mapped.take(i as int + 1).last() == mapped[i as int]);
            }
            i = i + 1;
        }
        proof {
            assert(mapped.take(nodes@.len() as int) =~= mapped);
        }
    }
}

/// In a list of tag entries without duplicate nodes, each entry's
/// node is in the denoted map with that entry's role.
proof fn lemma_tag_map_value(s: Seq<TagEntry>, i: int)
    requires
        0 <= i < s.len(),
        spec_entries_unique(s),
    ensures
        spec_tag_map(s).dom().contains(s[i].node),
        spec_tag_map(s)[s[i].node] == s[i].role,
    decreases s.len(),
{
    if i < s.len() - 1 {
        assert(spec_entries_unique(s.drop_last()));
        lemma_tag_map_value(s.drop_last(), i);
        assert(s[i].node != s.last().node);
    }
}

/// A node that appears in no entry is not in the denoted map.
proof fn lemma_tag_map_not_contains(s: Seq<TagEntry>, node: u64)
    requires
        forall|i: int| 0 <= i < s.len() ==> s[i].node != node,
    ensures
        !spec_tag_map(s).dom().contains(node),
    decreases s.len(),
{
    if s.len() > 0 {
        lemma_tag_map_not_contains(s.drop_last(), node);
    }
}

/// Scanning the same node with the same name twice attaches its tag
/// exactly once: the second scan changes nothing.
pub proof fn lemma_scan_idempotent(
    m: Map<u64, Role>,
    rules: Seq<(Seq<u8>, Role)>,
    node: u64,
    name: Seq<u8>,
)
    ensures
        spec_scanned(spec_scanned(m, rules, node, name), rules, node, name) == spec_scanned(
            m,
            rules,
            node,
            name,
        ),
{
}

/// A scan never re-evaluates or removes a tag that is already
/// attached, whatever node it scans.
pub proof fn lemma_scan_preserves_tags(
    m: Map<u64, Role>,
    rules: Seq<(Seq<u8>, Role)>,
    node: u64,
    name: Seq<u8>,
    tagged: u64,
)
    requires
        m.dom().contains(tagged),
    ensures
        spec_scanned(m, rules, node, name).dom().contains(tagged),
        spec_scanned(m, rules, node, name)[tagged] == m[tagged],
{
}

} // verus!
