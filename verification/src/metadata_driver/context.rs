//! The joins that linked fields need, and the alias each chain of foreign keys gets.

use vstd::prelude::*;

use crate::engine::query::{JoinType, Relation, RelationModel, TableRef, TableRefModel};
use crate::metadata::field::{FieldModel, FieldSourceModel, LinkModel, LinkStepModel};
use crate::metadata::{FieldSource, LinkReference, MetadataQueryRequest};
use crate::text::{copy_string, join, join_strings, nat_text, owned, push_u128, str_eq, strings_view};

verus! {

/// The joins made so far and the alias given to each chain of foreign keys.
pub struct LinkState {
    pub relations: Seq<RelationModel>,
    pub aliases: Seq<(Seq<char>, Seq<char>)>,
}

/// The alias of `key`: that of its first entry.
pub open spec fn alias_lookup(aliases: Seq<(Seq<char>, Seq<char>)>, key: Seq<char>) -> Option<Seq<char>>
    decreases aliases.len(),
{
    if aliases.len() == 0 {
        None
    } else {
        match alias_lookup(aliases.drop_last(), key) {
            Some(a) => Some(a),
            None => if aliases.last().0 == key { Some(aliases.last().1) } else { None },
        }
    }
}

/// A step's foreign key.
pub open spec fn foreign_key_of() -> spec_fn(LinkStepModel) -> Seq<char> {
    |s: LinkStepModel| s.foreign_key
}

/// The key of the first `n` steps of a link: their foreign keys joined by `;`.
pub open spec fn link_key(steps: Seq<LinkStepModel>, n: int) -> Seq<char> {
    join(steps.take(n).map_values(foreign_key_of()), ";"@)
}

/// The alias the `k`-th join gets (counting from 1).
pub open spec fn alias_name(k: nat) -> Seq<char> {
    "a"@ + nat_text(k)
}

/// The state after the first `n` steps of a link, and the alias the last of them
/// reached (the main alias before any step). A chain seen before keeps its alias; a new
/// one is left-joined to the previous alias on its foreign key and the target's `id`.
pub open spec fn steps_state(st: LinkState, main_alias: Seq<char>, steps: Seq<LinkStepModel>, n: int) -> (LinkState, Seq<char>)
    decreases n,
{
    if n <= 0 || n > steps.len() {
        (st, main_alias)
    } else {
        let (s, left) = steps_state(st, main_alias, steps, n - 1);
        let key = link_key(steps, n);
        match alias_lookup(s.aliases, key) {
            Some(a) => (s, a),
            None => {
                let a = alias_name(s.aliases.len() + 1);
                (
                    LinkState {
                        relations: s.relations.push(RelationModel {
                            join_type: JoinType::Left,
                            left_alias: left,
                            left_column: steps[n - 1].foreign_key,
                            right_table: TableRefModel { name: steps[n - 1].table, alias: Some(a) },
                            right_column: "id"@,
                        }),
                        aliases: s.aliases.push((key, a)),
                    },
                    a,
                )
            },
        }
    }
}

/// The state after the links of the first `n` fields.
pub open spec fn context_state(fields: Seq<FieldModel>, main_alias: Seq<char>, n: int) -> LinkState
    decreases n,
{
    if n <= 0 || n > fields.len() {
        LinkState { relations: Seq::empty(), aliases: Seq::empty() }
    } else {
        let s = context_state(fields, main_alias, n - 1);
        match fields[n - 1].source {
            FieldSourceModel::Linked(l) => steps_state(s, main_alias, l.steps, l.steps.len() as int).0,
            _ => s,
        }
    }
}

/// The state after all the links of the fields.
pub open spec fn link_context_of(fields: Seq<FieldModel>, main_alias: Seq<char>) -> LinkState {
    context_state(fields, main_alias, fields.len() as int)
}

/// The alias of a whole link.
pub open spec fn link_alias(st: LinkState, l: LinkModel) -> Seq<char> {
    match alias_lookup(st.aliases, link_key(l.steps, l.steps.len() as int)) {
        Some(a) => a,
        None => Seq::empty(),
    }
}

/// Every linked field has at least one step.
pub open spec fn links_have_steps(fields: Seq<FieldModel>) -> bool {
    forall|i: int| 0 <= i < fields.len() ==> link_has_steps(#[trigger] fields[i])
}

/// A linked field has at least one step; other fields qualify as they are.
pub open spec fn link_has_steps(f: FieldModel) -> bool {
    match f.source {
        FieldSourceModel::Linked(l) => l.steps.len() > 0,
        _ => true,
    }
}

pub proof fn lemma_lookup_extends(a: Seq<(Seq<char>, Seq<char>)>, b: Seq<(Seq<char>, Seq<char>)>, key: Seq<char>)
    requires
        alias_lookup(a, key) is Some,
        b.len() >= a.len(),
        b.take(a.len() as int) == a,
    ensures
        alias_lookup(b, key) == alias_lookup(a, key),
    decreases b.len(),
{
    if b.len() > a.len() {
        assert(b.drop_last().take(a.len() as int) =~= b.take(a.len() as int));
        lemma_lookup_extends(a, b.drop_last(), key);
    } else {
        assert(b =~= a);
    }
}

pub proof fn lemma_steps_extend(st: LinkState, main_alias: Seq<char>, steps: Seq<LinkStepModel>, n: int)
    ensures
        steps_state(st, main_alias, steps, n).0.aliases.len() >= st.aliases.len(),
        steps_state(st, main_alias, steps, n).0.aliases.take(st.aliases.len() as int) == st.aliases,
        steps_state(st, main_alias, steps, n).0.relations.len() >= st.relations.len(),
        steps_state(st, main_alias, steps, n).0.relations.take(st.relations.len() as int) == st.relations,
        1 <= n <= steps.len() ==> alias_lookup(steps_state(st, main_alias, steps, n).0.aliases, link_key(steps, n))
            == Some(steps_state(st, main_alias, steps, n).1),
    decreases n,
{
    if n <= 0 || n > steps.len() {
        assert(st.aliases.take(st.aliases.len() as int) =~= st.aliases);
        assert(st.relations.take(st.relations.len() as int) =~= st.relations);
    } else {
        lemma_steps_extend(st, main_alias, steps, n - 1);
        let (s, left) = steps_state(st, main_alias, steps, n - 1);
        let key = link_key(steps, n);
        match alias_lookup(s.aliases, key) {
            Some(a) => {},
            None => {
                let a = alias_name(s.aliases.len() + 1);
                let na = s.aliases.push((key, a));
                assert(na.drop_last() =~= s.aliases);
                assert(na.take(st.aliases.len() as int) =~= s.aliases.take(st.aliases.len() as int));
                let nr = steps_state(st, main_alias, steps, n).0.relations;
                assert(nr.take(st.relations.len() as int) =~= s.relations.take(st.relations.len() as int));
            },
        }
    }
}

pub proof fn lemma_context_extends(fields: Seq<FieldModel>, main_alias: Seq<char>, j: int, n: int)
    requires
        0 <= j <= n <= fields.len(),
    ensures
        context_state(fields, main_alias, n).aliases.len() >= context_state(fields, main_alias, j).aliases.len(),
        context_state(fields, main_alias, n).aliases.take(context_state(fields, main_alias, j).aliases.len() as int)
            == context_state(fields, main_alias, j).aliases,
    decreases n - j,
{
    let sj = context_state(fields, main_alias, j);
    if j == n {
        assert(sj.aliases.take(sj.aliases.len() as int) =~= sj.aliases);
    } else {
        lemma_context_extends(fields, main_alias, j, n - 1);
        let s = context_state(fields, main_alias, n - 1);
        match fields[n - 1].source {
            FieldSourceModel::Linked(l) => {
                lemma_steps_extend(s, main_alias, l.steps, l.steps.len() as int);
                let t = context_state(fields, main_alias, n).aliases;
                assert(t.take(sj.aliases.len() as int) =~= t.take(s.aliases.len() as int).take(sj.aliases.len() as int));
            },
            _ => {},
        }
    }
}

/// Every linked field of the fields, when it has a step, has an alias once the context
/// of all fields is built.
pub proof fn lemma_link_has_alias(fields: Seq<FieldModel>, main_alias: Seq<char>, i: int)
    requires
        0 <= i < fields.len(),
        fields[i].source matches FieldSourceModel::Linked(l) && l.steps.len() > 0,
    ensures
        fields[i].source matches FieldSourceModel::Linked(l) && alias_lookup(
            link_context_of(fields, main_alias).aliases,
            link_key(l.steps, l.steps.len() as int),
        ) is Some,
{
    let s = context_state(fields, main_alias, i);
    match fields[i].source {
        FieldSourceModel::Linked(l) => {
            lemma_steps_extend(s, main_alias, l.steps, l.steps.len() as int);
            let after = context_state(fields, main_alias, i + 1);
            assert(after == steps_state(s, main_alias, l.steps, l.steps.len() as int).0);
            lemma_context_extends(fields, main_alias, i + 1, fields.len() as int);
            lemma_lookup_extends(after.aliases, link_context_of(fields, main_alias).aliases, link_key(l.steps, l.steps.len() as int));
        },
        _ => {},
    }
}

/// The joins of the linked fields and their aliases.
pub struct LinkContext {
    pub relations: Vec<Relation>,
    pub aliases: Vec<(String, String)>,
}

impl View for LinkContext {
    type V = LinkState;

    open spec fn view(&self) -> LinkState {
        LinkState {
            relations: self.relations@.map_values(|r: Relation| r@),
            aliases: self.aliases@.map_values(|e: (String, String)| (e.0@, e.1@)),
        }
    }
}

impl LinkContext {
    fn lookup(&self, key: &str) -> (r: Option<String>)
        ensures
            match r {
                Some(a) => alias_lookup(self@.aliases, key@) == Some(a@),
                None => alias_lookup(self@.aliases, key@) is None,
            },
    {
        let ghost al = self@.aliases;
        let n = self.aliases.len();
        let mut i: usize = 0;
        while i < n
            invariant
                n == self.aliases@.len(),
                al == self@.aliases,
                i <= n,
                alias_lookup(al.take(i as int), key@) is None,
            decreases n - i,
        {
            assert(al.take(i + 1).drop_last() =~= al.take(i as int));
            if str_eq(self.aliases[i].0.as_str(), key) {
                proof {
                    lemma_lookup_extends(al.take(i + 1), al, key@);
                    assert(al.take(n as int) =~= al);
                    assert(al.take(i + 1).take((i + 1) as int) =~= al.take(i + 1));
                    assert(al.take((i + 1) as int) =~= al.take(i + 1));
                }
                proof {
                    lemma_prefix_lookup(al, i + 1, key@);
                }
                return Some(copy_string(&self.aliases[i].1));
            }
            i = i + 1;
        }
        assert(al.take(n as int) =~= al);
        None
    }

    /// The alias of a whole link; the link has one.
    pub fn alias_for(&self, link: &LinkReference) -> (r: String)
        requires
            alias_lookup(self@.aliases, link_key(link@.steps, link@.steps.len() as int)) is Some,
        ensures
            r@ == link_alias(self@, link@),
    {
        let key = link_key_text(link, link.steps.len());
        match self.lookup(key.as_str()) {
            Some(a) => a,
            None => String::new(),
        }
    }
}

proof fn lemma_prefix_lookup(al: Seq<(Seq<char>, Seq<char>)>, k: int, key: Seq<char>)
    requires
        1 <= k <= al.len(),
        alias_lookup(al.take(k - 1), key) is None,
        al[k - 1].0 == key,
    ensures
        alias_lookup(al, key) == Some(al[k - 1].1),
{
    let p = al.take(k);
    assert(p.drop_last() =~= al.take(k - 1));
    assert(alias_lookup(p, key) == Some(al[k - 1].1));
    assert(p.take(p.len() as int) =~= p);
    assert(al.take(p.len() as int) =~= p);
    lemma_lookup_extends(p, al, key);
}

/// The key of the first `n` steps of a link.
pub fn link_key_text(link: &LinkReference, n: usize) -> (r: String)
    requires
        n <= link.steps@.len(),
    ensures
        r@ == link_key(link@.steps, n as int),
{
    let mut keys: Vec<String> = Vec::new();
    let mut i: usize = 0;
    while i < n
        invariant
            n <= link.steps@.len(),
            i <= n,
            strings_view(keys@) == link@.steps.take(i as int).map_values(foreign_key_of()),
        decreases n - i,
    {
        let ghost before = keys@;
        let k = copy_string(&link.steps[i].foreign_key);
        keys.push(k);
        proof {
            assert(link@.steps[i as int] == link.steps@[i as int]@);
            assert(strings_view(keys@) =~= strings_view(before).push(k@));
            assert(link@.steps.take(i + 1).map_values(foreign_key_of())
                =~= link@.steps.take(i as int).map_values(foreign_key_of()).push(link@.steps[i as int].foreign_key));
        }
        i = i + 1;
    }
    join_strings(&keys, ";")
}

fn alias_text(k: usize) -> (r: String)
    ensures
        r@ == alias_name(k as nat + 1),
{
    let mut s = "a".to_owned();
    push_u128(&mut s, (k as u128) + 1);
    s
}

/// The joins and aliases of the linked fields of a request, in field order.
pub fn build_link_context(request: &MetadataQueryRequest, main_alias: &str) -> (r: LinkContext)
    ensures
        r@ == link_context_of(request@.fields, main_alias@),
{
    let ghost fs = request@.fields;
    let mut ctx = LinkContext { relations: Vec::new(), aliases: Vec::new() };
    proof {
        assert(ctx@.relations =~= Seq::<RelationModel>::empty());
        assert(ctx@.aliases =~= Seq::<(Seq<char>, Seq<char>)>::empty());
    }
    let n = request.fields.len();
    let mut i: usize = 0;
    while i < n
        invariant
            n == request.fields@.len(),
            fs == request@.fields,
            i <= n,
            ctx@ == context_state(fs, main_alias@, i as int),
        decreases n - i,
    {
        let field = &request.fields[i];
        assert(fs[i as int] == field@);
        match &field.source {
            FieldSource::Linked(link) => {
                let ghost s0 = ctx@;
                let mut left = owned(main_alias);
                let m = link.steps.len();
                let mut j: usize = 0;
                while j < m
                    invariant
                        m == link.steps@.len(),
                        j <= m,
                        (ctx@, left@) == steps_state(s0, main_alias@, link@.steps, j as int),
                    decreases m - j,
                {
                    let key = link_key_text(link, j + 1);
                    let step = &link.steps[j];
                    assert(link@.steps[j as int] == step@);
                    match ctx.lookup(key.as_str()) {
                        Some(existing) => {
                            left = existing;
                        },
                        None => {
                            let alias = alias_text(ctx.aliases.len());
                            let ghost before = ctx@;
                            let rel = Relation::new(
                                JoinType::Left,
                                left.as_str(),
                                step.foreign_key.as_str(),
                                TableRef::new(step.table.as_str()).alias(alias.as_str()),
                                "id",
                            );
                            ctx.relations.push(rel);
                            ctx.aliases.push((key, copy_string(&alias)));
                            proof {
                                assert(ctx@.relations =~= before.relations.push(rel@));
                                assert(ctx@.aliases =~= before.aliases.push((link_key(link@.steps, j + 1), alias@)));
                            }
                            left = alias;
                        },
                    }
                    j = j + 1;
                }
            },
            _ => {},
        }
        i = i + 1;
    }
    ctx
}

} // verus!
