use crate::ast::Expr;
use vstd::prelude::*;

verus! {

/// The bindings of one scope, in the order they were made.
type SymbolTable = Vec<(String, Expr)>;

/// The map of names to expressions that a scope's entries describe.
pub open spec fn scope_map(entries: Seq<(String, Expr)>) -> Map<Seq<char>, Expr>
    decreases entries.len(),
{
    if entries.len() == 0 {
        Map::empty()
    } else {
        scope_map(entries.drop_last()).insert(entries.last().0@, entries.last().1)
    }
}

/// No name is bound twice in the entries.
pub open spec fn names_unique(entries: Seq<(String, Expr)>) -> bool {
    forall|i: int, j: int|
        0 <= i < entries.len() && 0 <= j < entries.len() && i != j ==> entries[i].0@ != entries[j].0@
}

/// The binding of `name` in the innermost scope that has one.
pub open spec fn lookup(scopes: Seq<Map<Seq<char>, Expr>>, name: Seq<char>) -> Option<Expr>
    decreases scopes.len(),
{
    if scopes.len() == 0 {
        None
    } else if scopes.last().contains_key(name) {
        Some(scopes.last()[name])
    } else {
        lookup(scopes.drop_last(), name)
    }
}

proof fn lemma_scope_absent(entries: Seq<(String, Expr)>, name: Seq<char>)
    requires
        forall|i: int| 0 <= i < entries.len() ==> entries[i].0@ != name,
    ensures
        !scope_map(entries).contains_key(name),
    decreases entries.len(),
{
    if entries.len() > 0 {
        lemma_scope_absent(entries.drop_last(), name);
    }
}

proof fn lemma_scope_found(entries: Seq<(String, Expr)>, j: int)
    requires
        names_unique(entries),
        0 <= j < entries.len(),
    ensures
        scope_map(entries).contains_key(entries[j].0@),
        scope_map(entries)[entries[j].0@] == entries[j].1,
    decreases entries.len(),
{
    if j < entries.len() - 1 {
        lemma_scope_found(entries.drop_last(), j);
    }
}

proof fn lemma_scope_update(entries: Seq<(String, Expr)>, j: int, key: String, v: Expr)
    requires
        names_unique(entries),
        0 <= j < entries.len(),
        key@ == entries[j].0@,
    ensures
        scope_map(entries.update(j, (key, v))) == scope_map(entries).insert(key@, v),
        names_unique(entries.update(j, (key, v))),
    decreases entries.len(),
{
    let k = key@;
    let updated = entries.update(j, (key, v));
    assert(updated.drop_last() =~= if j == entries.len() - 1 {
        entries.drop_last()
    } else {
        entries.drop_last().update(j, (key, v))
    });
    if j < entries.len() - 1 {
        lemma_scope_update(entries.drop_last(), j, key, v);
        assert(entries.last().0@ != k);
    }
    assert(scope_map(updated) =~= scope_map(entries).insert(k, v));
}

/// The symbol environment: a stack of scopes, innermost last.
#[derive(Debug)]
pub struct Env {
    stack: Vec<SymbolTable>,
}

impl View for Env {
    type V = Seq<Map<Seq<char>, Expr>>;

    closed spec fn view(&self) -> Seq<Map<Seq<char>, Expr>> {
        Seq::new(self.stack@.len(), |i: int| scope_map(self.stack@[i]@))
    }
}

impl Env {
    /// Each scope binds each name at most once.
    pub closed spec fn wf(&self) -> bool {
        forall|i: int| 0 <= i < self.stack@.len() ==> names_unique(#[trigger] self.stack@[i]@)
    }

    pub fn new() -> (r: Env)
        ensures
            r.wf(),
            r@ == Seq::<Map<Seq<char>, Expr>>::empty(),
    {
        let r = Env { stack: Vec::new() };
        assert(r@ =~= Seq::<Map<Seq<char>, Expr>>::empty());
        r
    }

    /// The number of open scopes.
    pub fn len(&self) -> (r: usize)
        ensures
            r == self@.len(),
    {
        self.stack.len()
    }

    pub fn is_empty(&self) -> (r: bool)
        ensures
            r == (self@.len() == 0),
    {
        self.stack.len() == 0
    }

    /// Opens a new innermost scope.
    pub fn push(&mut self)
        requires
            old(self).wf(),
        ensures
            final(self).wf(),
            final(self)@ == old(self)@.push(Map::empty()),
    {
        self.stack.push(Vec::new());
        assert(scope_map(Seq::<(String, Expr)>::empty()) == Map::<Seq<char>, Expr>::empty());
        assert(self@ =~= old(self)@.push(Map::empty()));
    }

    /// Closes the innermost scope; does nothing when none is open.
    pub fn pop(&mut self)
        requires
            old(self).wf(),
        ensures
            final(self).wf(),
            final(self)@ == if old(self)@.len() == 0 {
                old(self)@
            } else {
                old(self)@.drop_last()
            },
    {
        if self.stack.len() > 0 {
            self.stack.pop();
            assert(self@ =~= old(self)@.drop_last());
        }
    }

    /// Binds `name` to `id` in the innermost scope, replacing a binding of
    /// the same name there; does nothing when no scope is open.
    pub fn put(&mut self, name: &str, id: &Expr)
        requires
            old(self).wf(),
        ensures
            final(self).wf(),
            final(self)@ == if old(self)@.len() == 0 {
                old(self)@
            } else {
                old(self)@.update(old(self)@.len() - 1, old(self)@.last().insert(name@, *id))
            },
    {
        let n = self.stack.len();
        if n == 0 {
            return;
        }
        let mut last = self.stack.pop().unwrap();
        let ghost before = last@;
        assert(before == old(self).stack@[n - 1]@);
        let key = name.to_owned();
        let found = find_name(&last, &key);
        match found {
            Some(j) => {
                proof {
                    lemma_scope_update(before, j as int, key, *id);
                }
                last.set(j, (key, id.clone()));
            },
            None => {
                proof {
                    lemma_scope_absent(before, key@);
                }
                last.push((key, id.clone()));
                assert(last@.drop_last() =~= before);
            },
        }
        assert(scope_map(last@) == scope_map(before).insert(name@, *id));
        assert(names_unique(last@));
        self.stack.push(last);
        assert(self.stack@ =~= old(self).stack@.update(n - 1, last));
        assert(self@ =~= old(self)@.update(n - 1, old(self)@.last().insert(name@, *id)));
    }

    /// The binding of `name` in the innermost scope that has one.
    pub fn get(&self, name: &str) -> (r: Option<&Expr>)
        requires
            self.wf(),
        ensures
            r is None <==> lookup(self@, name@) is None,
            r matches Some(e) ==> lookup(self@, name@) == Some(*e),
    {
        let key = name.to_owned();
        let mut i = self.stack.len();
        assert(self@.subrange(0, i as int) =~= self@);
        while i > 0
            invariant
                self.wf(),
                key@ == name@,
                i <= self.stack@.len(),
                lookup(self@.subrange(0, i as int), name@) == lookup(self@, name@),
            decreases i,
        {
            let scope = &self.stack[i - 1];
            assert(self@.subrange(0, i as int).drop_last() =~= self@.subrange(0, i - 1));
            assert(self@.subrange(0, i as int).last() == scope_map(scope@));
            match find_name(scope, &key) {
                Some(j) => {
                    proof {
                        lemma_scope_found(scope@, j as int);
                    }
                    return Some(&scope[j].1);
                },
                None => {
                    proof {
                        lemma_scope_absent(scope@, key@);
                    }
                },
            }
            i = i - 1;
        }
        None
    }
}

/// The position of the entry that binds `name`, if one does.
fn find_name(entries: &SymbolTable, name: &String) -> (r: Option<usize>)
    ensures
        r matches Some(j) ==> j < entries@.len() && entries@[j as int].0@ == name@,
        r is None ==> forall|i: int| 0 <= i < entries@.len() ==> entries@[i].0@ != name@,
{
    let mut j: usize = 0;
    while j < entries.len()
        invariant
            j <= entries@.len(),
            forall|i: int| 0 <= i < j ==> entries@[i].0@ != name@,
        decreases entries@.len() - j,
    {
        if entries[j].0 == *name {
            return Some(j);
        }
        j = j + 1;
    }
    None
}

} // verus!
