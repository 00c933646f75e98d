//! Binding slots of a shader's resources, resolved from reflection data.
//!
//! The reflection data comes in as plain values: a list of entries, each
//! naming a shader and listing its parameters with their binding slots.
//! Resolution keeps, for each parameter name of the chosen shader, the slot
//! that was listed last.
use vstd::prelude::*;

verus! {

/// One parameter of a shader as reflection lists it; a field that reflection
/// lacks, or gives in another form, is `None`.
#[derive(Debug)]
pub struct ReflectionParam {
    pub name: Option<String>,
    pub binding: Option<u64>,
}

/// One shader as reflection lists it.
#[derive(Debug)]
pub struct ReflectionEntry {
    pub shader_name: Option<String>,
    pub parameters: Option<Vec<ReflectionParam>>,
}

/// Parameter names and their binding slots, each name at most once, in the
/// order in which the names were first added.
pub struct BindingTable {
    pairs: Vec<(String, u32)>,
}

/// The names and slots of a table.
pub open spec fn pairs_view(v: Seq<(String, u32)>) -> Seq<(Seq<char>, u32)> {
    v.map_values(|p: (String, u32)| (p.0@, p.1))
}

/// No name occurs twice.
pub open spec fn unique_names(v: Seq<(Seq<char>, u32)>) -> bool {
    forall|i: int, j: int| 0 <= i < v.len() && 0 <= j < v.len() && #[trigger] v[i].0 == #[trigger] v[j].0 ==> i == j
}

/// The position of `name` in `v`, or -1 when it is not there.
pub open spec fn position(v: Seq<(Seq<char>, u32)>, name: Seq<char>) -> int
    decreases v.len(),
{
    if v.len() == 0 {
        -1
    } else if v.last().0 == name {
        v.len() - 1
    } else {
        position(v.drop_last(), name)
    }
}

/// `v` with `name` bound to `slot`: the slot replaced where the name is
/// already there, the pair appended where it is not.
pub open spec fn with_binding(v: Seq<(Seq<char>, u32)>, name: Seq<char>, slot: u32) -> Seq<(Seq<char>, u32)> {
    let j = position(v, name);
    if j >= 0 {
        v.update(j, (name, slot))
    } else {
        v.push((name, slot))
    }
}

/// The slot bound to `name` in `v`, if any.
pub open spec fn slot_in(v: Seq<(Seq<char>, u32)>, name: Seq<char>) -> Option<u32> {
    let j = position(v, name);
    if j >= 0 {
        Some(v[j].1)
    } else {
        None
    }
}

/// `v` after binding each parameter of `ps` that has both a name and a slot,
/// in order; a slot is cut to its low 32 bits.
pub open spec fn with_params(v: Seq<(Seq<char>, u32)>, ps: Seq<ReflectionParam>) -> Seq<(Seq<char>, u32)>
    decreases ps.len(),
{
    if ps.len() == 0 {
        v
    } else {
        let w = with_params(v, ps.drop_last());
        let p = ps.last();
        match (p.name, p.binding) {
            (Some(n), Some(b)) => with_binding(w, n@, b as u32),
            _ => w,
        }
    }
}

/// Whether entry `e` describes the shader `shader` and lists parameters.
pub open spec fn describes(e: ReflectionEntry, shader: Seq<char>) -> bool {
    e.shader_name matches Some(s) && s@ == shader && e.parameters is Some
}

/// The table resolved for `shader` from entries `es`, in order.
pub open spec fn resolved(es: Seq<ReflectionEntry>, shader: Seq<char>) -> Seq<(Seq<char>, u32)>
    decreases es.len(),
{
    if es.len() == 0 {
        Seq::empty()
    } else {
        let w = resolved(es.drop_last(), shader);
        let e = es.last();
        if describes(e, shader) {
            with_params(w, e.parameters->Some_0@)
        } else {
            w
        }
    }
}

proof fn lemma_position(v: Seq<(Seq<char>, u32)>, name: Seq<char>)
    requires
        unique_names(v),
    ensures
        -1 <= position(v, name) < v.len(),
        position(v, name) >= 0 ==> v[position(v, name)].0 == name,
        position(v, name) == -1 <==> forall|j: int| 0 <= j < v.len() ==> v[j].0 != name,
    decreases v.len(),
{
    if v.len() > 0 {
        let w = v.drop_last();
        assert(unique_names(w));
        lemma_position(w, name);
        if v.last().0 == name {
        } else {
            assert forall|j: int| 0 <= j < w.len() && w[j].0 != name implies v[j].0 != name by {}
        }
    }
}

proof fn lemma_with_binding_unique(v: Seq<(Seq<char>, u32)>, name: Seq<char>, slot: u32)
    requires
        unique_names(v),
    ensures
        unique_names(with_binding(v, name, slot)),
{
    lemma_position(v, name);
    let w = with_binding(v, name, slot);
    assert forall|i: int, j: int| 0 <= i < w.len() && 0 <= j < w.len() && #[trigger] w[i].0 == #[trigger] w[j].0 implies i == j by {
        if position(v, name) < 0 {
            if i == v.len() as int {
                assert(v[j].0 == name || j == i);
            } else if j == v.len() as int {
                assert(v[i].0 == name || j == i);
            }
        }
    }
}

proof fn lemma_with_params_unique(v: Seq<(Seq<char>, u32)>, ps: Seq<ReflectionParam>)
    requires
        unique_names(v),
    ensures
        unique_names(with_params(v, ps)),
    decreases ps.len(),
{
    if ps.len() > 0 {
        lemma_with_params_unique(v, ps.drop_last());
        let w = with_params(v, ps.drop_last());
        let p = ps.last();
        match (p.name, p.binding) {
            (Some(n), Some(b)) => lemma_with_binding_unique(w, n@, b as u32),
            _ => {},
        }
    }
}

impl View for BindingTable {
    type V = Seq<(Seq<char>, u32)>;

    closed spec fn view(&self) -> Seq<(Seq<char>, u32)> {
        pairs_view(self.pairs@)
    }
}

impl BindingTable {
    /// Each name occurs at most once.
    pub open spec fn wf(&self) -> bool {
        unique_names(self@)
    }

    /// An empty table.
    pub fn new() -> (t: BindingTable)
        ensures
            t.wf(),
            t@ == Seq::<(Seq<char>, u32)>::empty(),
    {
        let t = BindingTable { pairs: Vec::new() };
        assert(t@ =~= Seq::<(Seq<char>, u32)>::empty());
        t
    }

    /// Number of names in the table.
    pub fn len(&self) -> (n: usize)
        ensures
            n == self@.len(),
    {
        self.pairs.len()
    }

    fn find(&self, name: &String) -> (j: Option<usize>)
        requires
            self.wf(),
        ensures
            j is None ==> position(self@, name@) == -1,
            j matches Some(k) ==> k == position(self@, name@) && k < self.pairs@.len(),
    {
        proof {
            lemma_position(self@, name@);
        }
        let mut i: usize = 0;
        while i < self.pairs.len()
            invariant
                self.wf(),
                i <= self.pairs@.len(),
                self@.len() == self.pairs@.len(),
                forall|j: int| 0 <= j < i ==> self@[j].0 != name@,
            decreases self.pairs@.len() - i,
        {
            if self.pairs[i].0 == *name {
                proof {
                    assert(self@.len() == self.pairs@.len());
                    assert(self@[i as int].0 == name@);
                    lemma_position(self@, name@);
                    assert(position(self@, name@) != -1);
                    assert(self@[position(self@, name@)].0 == self@[i as int].0);
                }
                return Some(i);
            }
            i = i + 1;
        }
        None
    }

    /// The slot bound to `name`, if any.
    pub fn get(&self, name: &String) -> (r: Option<u32>)
        requires
            self.wf(),
        ensures
            r == slot_in(self@, name@),
    {
        match self.find(name) {
            Some(j) => Some(self.pairs[j].1),
            None => None,
        }
    }

    /// Binds `name` to `slot`, replacing the slot it had.
    pub fn insert(&mut self, name: String, slot: u32)
        requires
            old(self).wf(),
        ensures
            final(self).wf(),
            final(self)@ == with_binding(old(self)@, name@, slot),
    {
        proof {
            lemma_with_binding_unique(self@, name@, slot);
        }
        let ghost target = with_binding(self@, name@, slot);
        proof {
            lemma_position(self@, name@);
        }
        match self.find(&name) {
            Some(j) => {
                self.pairs.set(j, (name, slot));
            },
            None => {
                self.pairs.push((name, slot));
            },
        }
        assert(self@ =~= target);
    }

    /// The slots in table order, one for each name.
    pub fn slots(&self) -> (r: Vec<u32>)
        ensures
            r@ == self@.map_values(|p: (Seq<char>, u32)| p.1),
    {
        let mut out: Vec<u32> = Vec::with_capacity(self.pairs.len());
        let mut i: usize = 0;
        while i < self.pairs.len()
            invariant
                i <= self.pairs@.len(),
                out@ =~= self@.map_values(|p: (Seq<char>, u32)| p.1).take(i as int),
            decreases self.pairs@.len() - i,
        {
            out.push(self.pairs[i].1);
            i = i + 1;
            assert(out@ =~= self@.map_values(|p: (Seq<char>, u32)| p.1).take(i as int));
        }
        assert(self@.map_values(|p: (Seq<char>, u32)| p.1).take(self@.len() as int) =~= self@.map_values(|p: (Seq<char>, u32)| p.1));
        out
    }
}

/// Adds each parameter of `ps` that has both a name and a slot to `table`,
/// in order.
fn add_params(table: &mut BindingTable, ps: &Vec<ReflectionParam>)
    requires
        old(table).wf(),
    ensures
        final(table).wf(),
        final(table)@ == with_params(old(table)@, ps@),
{
    let ghost start = table@;
    let mut i: usize = 0;
    while i < ps.len()
        invariant
            table.wf(),
            i <= ps@.len(),
            table@ == with_params(start, ps@.take(i as int)),
        decreases ps@.len() - i,
    {
        let p = &ps[i];
        assert(ps@.take(i as int + 1).drop_last() =~= ps@.take(i as int));
        match (&p.name, p.binding) {
            (Some(n), Some(b)) => {
                table.insert(n.clone(), b as u32);
            },
            _ => {},
        }
        i = i + 1;
    }
    assert(ps@.take(ps@.len() as int) =~= ps@);
}

/// The binding table of the shader named `shader`: every entry that names it
/// and lists parameters contributes, in order, each parameter that has both a
/// name and a slot; a later slot for a name replaces an earlier one.
pub fn bindings_for_shader(entries: &Vec<ReflectionEntry>, shader: &String) -> (t: BindingTable)
    ensures
        t.wf(),
        t@ == resolved(entries@, shader@),
{
    let mut table = BindingTable::new();
    let mut i: usize = 0;
    while i < entries.len()
        invariant
            table.wf(),
            i <= entries@.len(),
            table@ == resolved(entries@.take(i as int), shader@),
        decreases entries@.len() - i,
    {
        let e = &entries[i];
        assert(entries@.take(i as int + 1).drop_last() =~= entries@.take(i as int));
        match (&e.shader_name, &e.parameters) {
            (Some(s), Some(ps)) => {
                if *s == *shader {
                    add_params(&mut table, ps);
                }
            },
            _ => {},
        }
        i = i + 1;
    }
    assert(entries@.take(entries@.len() as int) =~= entries@);
    table
}

/// The binding table of `shader` from reflection data, where `None` stands
/// for data that could not be had (unreadable, empty, not parsed, or not a
/// list): then the table is empty and binding resolution fails later on.
pub fn bindings_from_reflection(entries: Option<Vec<ReflectionEntry>>, shader: &String) -> (t: BindingTable)
    ensures
        t.wf(),
        t@ == match entries {
            Some(es) => resolved(es@, shader@),
            None => Seq::empty(),
        },
{
    match entries {
        Some(es) => bindings_for_shader(&es, shader),
        None => BindingTable::new(),
    }
}

} // verus!
