//! The types of relations: column types with their keys, and the names of
//! the columns.

use vstd::prelude::*;
use crate::datum::Datum;
use crate::scalar_type::{column_types_view, ColumnName, ColumnType, ColumnTypeV, ScalarType, ScalarTypeV};

verus! {

/// Two column types have no union.
#[derive(Clone, Copy, Debug, PartialEq, Eq, Structural)]
pub struct UnionError;

/// The union of two column types, if they have one: the scalar type of the
/// first where the two are equal up to what they embed; field by field for
/// two records with the same custom identifier and name, over the fields
/// that both have. The union is nullable when either type is.
pub open spec fn union_spec(a: ColumnTypeV, b: ColumnTypeV) -> Option<ColumnTypeV>
    decreases a,
{
    if a.scalar_type.base_eq(b.scalar_type) {
        Some(ColumnTypeV { scalar_type: a.scalar_type, nullable: a.nullable || b.nullable })
    } else {
        match (a.scalar_type, b.scalar_type) {
            (
                ScalarTypeV::Record { fields: fa, custom_oid: oa, custom_name: na },
                ScalarTypeV::Record { fields: fb, custom_oid: ob, custom_name: nb },
            ) => {
                let n = if fa.len() <= fb.len() {
                    fa.len()
                } else {
                    fb.len()
                };
                if oa == ob && na == nb && (forall|i: int|
                    0 <= i < n ==> (#[trigger] fa[i]).0 == fb[i].0 && union_spec(fa[i].1, fb[i].1) is Some) {
                    Some(
                        ColumnTypeV {
                            scalar_type: ScalarTypeV::Record {
                                fields: Seq::new(
                                    n,
                                    |i: int|
                                        if 0 <= i < n {
                                            (fa[i].0, union_spec(fa[i].1, fb[i].1).unwrap())
                                        } else {
                                            (Seq::empty(), ColumnTypeV { scalar_type: ScalarTypeV::Bool, nullable: false })
                                        },
                                ),
                                custom_oid: oa,
                                custom_name: na,
                            },
                            nullable: a.nullable || b.nullable,
                        },
                    )
                } else {
                    None
                }
            },
            _ => None,
        }
    }
}

/// Whether two optional texts are the same.
fn same_opt_text(a: &Option<String>, b: &Option<String>) -> (r: bool)
    ensures
        r == (crate::scalar_type::opt_text_view(*a) == crate::scalar_type::opt_text_view(*b)),
{
    match a {
        Some(x) => match b {
            Some(y) => *x == *y,
            None => false,
        },
        None => match b {
            Some(_) => false,
            None => true,
        },
    }
}

impl ColumnType {
    /// The union of two column types. Fails exactly when they have none.
    #[verifier::loop_isolation(false)]
    pub fn union(&self, other: &ColumnType) -> (r: Result<ColumnType, UnionError>)
        ensures
            match r {
                Ok(t) => union_spec(self@, other@) == Some(t@),
                Err(_) => union_spec(self@, other@) is None,
            },
        decreases self,
    {
        if self.scalar_type.base_eq(&other.scalar_type) {
            return Ok(ColumnType { scalar_type: self.scalar_type.clone(), nullable: self.nullable || other.nullable });
        }
        match &self.scalar_type {
            ScalarType::Record { fields: fa, custom_oid: oa, custom_name: na } => match &other.scalar_type {
                ScalarType::Record { fields: fb, custom_oid: ob, custom_name: nb } => {
                    proof {
                        crate::scalar_type::lemma_record_view(self.scalar_type);
                        crate::scalar_type::lemma_record_view(other.scalar_type);
                    }
                    let ghost va = self@.scalar_type->Record_fields;
                    let ghost vb = other@.scalar_type->Record_fields;
                    let same_oid = match oa {
                        Some(x) => match ob {
                            Some(y) => *x == *y,
                            None => false,
                        },
                        None => ob.is_none(),
                    };
                    if !same_oid || !same_opt_text(na, nb) {
                        return Err(UnionError);
                    }
                    let n = if fa.len() <= fb.len() {
                        fa.len()
                    } else {
                        fb.len()
                    };
                    let mut out: Vec<(ColumnName, ColumnType)> = Vec::new();
                    let mut i: usize = 0;
                    while i < n
                        invariant
                            i <= n,
                            n <= fa.len(),
                            n <= fb.len(),
                            out.len() == i,
                            forall|j: int|
                                0 <= j < i ==> (#[trigger] va[j]).0 == vb[j].0 && union_spec(va[j].1, vb[j].1)
                                    == Some(out@[j].1@) && out@[j].0@ == va[j].0,
                        decreases n - i,
                    {
                        if !fa[i].0.same(&fb[i].0) {
                            assert(!(va[i as int].0 == vb[i as int].0));
                            return Err(UnionError);
                        }
                        match fa[i].1.union(&fb[i].1) {
                            Ok(t) => {
                                out.push((fa[i].0.clone(), t));
                            },
                            Err(e) => {
                                assert(union_spec(va[i as int].1, vb[i as int].1) is None);
                                return Err(e);
                            },
                        }
                        i += 1;
                    }
                    let name = match na {
                        Some(s) => Some(s.clone()),
                        None => None,
                    };
                    let st = ScalarType::Record { fields: out, custom_oid: *oa, custom_name: name };
                    proof {
                        crate::scalar_type::lemma_record_view(st);
                        let want = union_spec(self@, other@);
                        assert(want is Some);
                        assert(st@->Record_fields =~= want.unwrap().scalar_type->Record_fields);
                    }
                    Ok(ColumnType { scalar_type: st, nullable: self.nullable || other.nullable })
                },
                _ => Err(UnionError),
            },
            _ => Err(UnionError),
        }
    }

    /// The same column type with its nullability set.
    pub fn nullable(self, nullable: bool) -> (r: ColumnType)
        ensures
            r.scalar_type == self.scalar_type,
            r.nullable == nullable,
    {
        ColumnType { scalar_type: self.scalar_type, nullable }
    }
}

/// The type of a relation.
#[derive(Debug, PartialEq, Eq, Hash)]
pub struct RelationType {
    /// The type of each column, in order.
    pub column_types: Vec<ColumnType>,
    /// Sets of column indices that are keys of the relation, each ascending,
    /// no set twice.
    pub keys: Vec<Vec<usize>>,
}

/// The views of a list of keys.
pub open spec fn keys_view(s: Seq<Vec<usize>>) -> Seq<Seq<usize>> {
    Seq::new(s.len(), |i: int| s[i]@)
}

/// `x` put into the ascending sequence `s` before the first element that is
/// not below it.
pub open spec fn insert_sorted(s: Seq<usize>, x: usize) -> Seq<usize>
    decreases s.len(),
{
    if s.len() == 0 {
        seq![x]
    } else if x <= s[0] {
        seq![x] + s
    } else {
        seq![s[0]] + insert_sorted(s.drop_first(), x)
    }
}

/// The elements of `s` in ascending order.
pub open spec fn sorted(s: Seq<usize>) -> Seq<usize>
    decreases s.len(),
{
    if s.len() == 0 {
        Seq::empty()
    } else {
        insert_sorted(sorted(s.drop_last()), s.last())
    }
}

/// Whether a sequence ascends.
pub open spec fn ascending(s: Seq<usize>) -> bool {
    forall|i: int, j: int| 0 <= i <= j < s.len() ==> s[i] <= s[j]
}

/// Inserting at the first place whose element is not below `x` is what
/// `insert_sorted` does.
proof fn lemma_insert_at(s: Seq<usize>, x: usize, k: int)
    requires
        0 <= k <= s.len(),
        forall|j: int| 0 <= j < k ==> s[j] < x,
        k < s.len() ==> x <= s[k],
    ensures
        insert_sorted(s, x) == s.insert(k, x),
    decreases s.len(),
{
    if s.len() == 0 {
        assert(s.insert(k, x) =~= seq![x]);
    } else if k == 0 {
        assert(s.insert(0, x) =~= seq![x] + s);
    } else {
        lemma_insert_at(s.drop_first(), x, k - 1);
        assert(s.insert(k, x) =~= seq![s[0]] + s.drop_first().insert(k - 1, x));
    }
}

/// The place at which `insert_sorted` puts `x`: the count of leading
/// elements below it.
pub open spec fn insert_pos(s: Seq<usize>, x: usize) -> int
    decreases s.len(),
{
    if s.len() == 0 || x <= s[0] {
        0
    } else {
        1 + insert_pos(s.drop_first(), x)
    }
}

proof fn lemma_insert_pos(s: Seq<usize>, x: usize)
    ensures
        0 <= insert_pos(s, x) <= s.len(),
        forall|j: int| 0 <= j < insert_pos(s, x) ==> s[j] < x,
        insert_pos(s, x) < s.len() ==> x <= s[insert_pos(s, x)],
    decreases s.len(),
{
    if s.len() == 0 || x <= s[0] {
    } else {
        let t = s.drop_first();
        lemma_insert_pos(t, x);
        assert forall|j: int| 0 <= j < insert_pos(s, x) implies s[j] < x by {
            if j > 0 {
                assert(s[j] == t[j - 1]);
            }
        }
        if insert_pos(s, x) < s.len() {
            assert(s[insert_pos(s, x)] == t[insert_pos(t, x)]);
        }
    }
}

/// Inserting into an ascending sequence leaves it ascending, one longer,
/// and with the one element more.
pub proof fn lemma_insert_sorted_ascending(s: Seq<usize>, x: usize)
    requires
        ascending(s),
    ensures
        ascending(insert_sorted(s, x)),
        insert_sorted(s, x).len() == s.len() + 1,
        insert_sorted(s, x).to_multiset() == s.to_multiset().insert(x),
{
    let p = insert_pos(s, x);
    lemma_insert_pos(s, x);
    lemma_insert_at(s, x, p);
    let r = s.insert(p, x);
    vstd::seq_lib::to_multiset_insert(s, p, x);
    assert forall|i: int, j: int| 0 <= i <= j < r.len() implies r[i] <= r[j] by {
        if j < p {
            assert(r[i] == s[i] && r[j] == s[j]);
        } else if j == p {
            if i < p {
                assert(r[i] == s[i]);
            }
        } else {
            assert(r[j] == s[j - 1]);
            if i < p {
                assert(r[i] == s[i]);
            } else if i == p {
                assert(s[p] <= s[j - 1]);
            } else {
                assert(r[i] == s[i - 1]);
            }
        }
    }
}

/// The sorted sequence ascends and holds what the sequence held.
pub proof fn lemma_sorted(s: Seq<usize>)
    ensures
        ascending(sorted(s)),
        sorted(s).len() == s.len(),
        sorted(s).to_multiset() == s.to_multiset(),
    decreases s.len(),
{
    if s.len() == 0 {
        assert(s =~= Seq::empty());
    } else {
        lemma_sorted(s.drop_last());
        lemma_insert_sorted_ascending(sorted(s.drop_last()), s.last());
        vstd::seq_lib::to_multiset_build(s.drop_last(), s.last());
        assert(s =~= s.drop_last().push(s.last()));
    }
}

/// Sorts indices in ascending order.
pub fn sort_indices(v: Vec<usize>) -> (r: Vec<usize>)
    ensures
        r@ == sorted(v@),
{
    let mut out: Vec<usize> = Vec::new();
    let mut i: usize = 0;
    while i < v.len()
        invariant
            i <= v.len(),
            out@ == sorted(v@.take(i as int)),
            out.len() == i,
        decreases v.len() - i,
    {
        let x = v[i];
        let mut k: usize = 0;
        while k < out.len() && out[k] < x
            invariant
                k <= out.len(),
                forall|j: int| 0 <= j < k ==> out@[j] < x,
            decreases out.len() - k,
        {
            k += 1;
        }
        proof {
            lemma_insert_at(out@, x, k as int);
            assert(v@.take(i + 1).drop_last() =~= v@.take(i as int));
        }
        out.insert(k, x);
        i += 1;
    }
    assert(v@.take(v.len() as int) =~= v@);
    out
}

/// Copies a list of indices.
pub fn clone_indices(v: &Vec<usize>) -> (r: Vec<usize>)
    ensures
        r@ == v@,
{
    let mut out: Vec<usize> = Vec::new();
    let mut i: usize = 0;
    while i < v.len()
        invariant
            i <= v.len(),
            out.len() == i,
            forall|j: int| 0 <= j < i ==> out@[j] == v@[j],
        decreases v.len() - i,
    {
        out.push(v[i]);
        i += 1;
    }
    assert(out@ =~= v@);
    out
}

/// Whether a key is among the keys.
pub fn contains_key(keys: &Vec<Vec<usize>>, key: &Vec<usize>) -> (r: bool)
    ensures
        r == keys_view(keys@).contains(key@),
{
    let mut i: usize = 0;
    while i < keys.len()
        invariant
            i <= keys.len(),
            forall|j: int| 0 <= j < i ==> keys@[j]@ != key@,
        decreases keys.len() - i,
    {
        let cand = &keys[i];
        let mut same = cand.len() == key.len();
        let mut k: usize = 0;
        while same && k < cand.len()
            invariant
                same ==> cand.len() == key.len(),
                same ==> k <= cand.len(),
                same ==> forall|j: int| 0 <= j < k ==> cand@[j] == key@[j],
                !same ==> cand@ != key@,
            decreases if same { cand.len() - k + 1 } else { 0 },
        {
            if cand[k] != key[k] {
                same = false;
            } else {
                k += 1;
            }
        }
        if same {
            assert(cand@ =~= key@);
            assert(keys_view(keys@)[i as int] == key@);
            return true;
        }
        i += 1;
    }
    assert(!keys_view(keys@).contains(key@)) by {
        if keys_view(keys@).contains(key@) {
            let j = choose|j: int| 0 <= j < keys_view(keys@).len() && keys_view(keys@)[j] == key@;
            assert(keys@[j]@ == key@);
        }
    }
    false
}

impl RelationType {
    /// The types of the columns.
    pub open spec fn types(self) -> Seq<ColumnTypeV> {
        column_types_view(self.column_types@)
    }

    /// The keys.
    pub open spec fn key_sets(self) -> Seq<Seq<usize>> {
        keys_view(self.keys@)
    }

    /// The keys after one more is added: the indices, sorted, unless they
    /// are a key already.
    pub open spec fn keys_with(keys: Seq<Seq<usize>>, indices: Seq<usize>) -> Seq<Seq<usize>> {
        if keys.contains(sorted(indices)) {
            keys
        } else {
            keys.push(sorted(indices))
        }
    }

    /// The keys after several more are added, one after the other.
    pub open spec fn keys_with_all(keys: Seq<Seq<usize>>, more: Seq<Seq<usize>>) -> Seq<Seq<usize>>
        decreases more.len(),
    {
        if more.len() == 0 {
            keys
        } else {
            Self::keys_with(Self::keys_with_all(keys, more.drop_last()), more.last())
        }
    }

    /// The type of the relation with no columns and no keys.
    pub fn empty() -> (r: RelationType)
        ensures
            r.column_types@.len() == 0,
            r.types() == Seq::<ColumnTypeV>::empty(),
            r.key_sets() == Seq::<Seq<usize>>::empty(),
    {
        let r = RelationType::new(Vec::new());
        assert(r.types() =~= Seq::<ColumnTypeV>::empty());
        r
    }

    /// A relation type of the given column types, without keys.
    pub fn new(column_types: Vec<ColumnType>) -> (r: RelationType)
        ensures
            r.column_types == column_types,
            r.key_sets() == Seq::<Seq<usize>>::empty(),
    {
        let r = RelationType { column_types, keys: Vec::new() };
        assert(r.key_sets() =~= Seq::<Seq<usize>>::empty());
        r
    }

    /// Adds a key: the indices in ascending order, unless that key is there
    /// already.
    pub fn with_key(self, indices: Vec<usize>) -> (r: RelationType)
        ensures
            r.column_types == self.column_types,
            r.key_sets() == Self::keys_with(self.key_sets(), indices@),
    {
        let mut this = self;
        let indices = sort_indices(indices);
        if !contains_key(&this.keys, &indices) {
            this.keys.push(indices);
            assert(keys_view(this.keys@) =~= keys_view(self.keys@).push(indices@));
        }
        this
    }

    /// Adds several keys, one after the other.
    pub fn with_keys(self, keys: Vec<Vec<usize>>) -> (r: RelationType)
        ensures
            r.column_types == self.column_types,
            r.key_sets() == Self::keys_with_all(self.key_sets(), keys_view(keys@)),
    {
        let mut this = self;
        let ghost all = keys_view(keys@);
        let ghost start = self.key_sets();
        let mut i: usize = 0;
        while i < keys.len()
            invariant
                i <= keys.len(),
                all == keys_view(keys@),
                this.column_types == self.column_types,
                this.key_sets() == Self::keys_with_all(start, all.take(i as int)),
            decreases keys.len() - i,
        {
            let k = clone_indices(&keys[i]);
            assert(k@ == all[i as int]);
            assert(all.take(i + 1).drop_last() =~= all.take(i as int));
            this = this.with_key(k);
            i += 1;
        }
        assert(all.take(keys.len() as int) =~= all);
        this
    }

    /// The number of columns.
    pub fn arity(&self) -> (r: usize)
        ensures
            r == self.column_types@.len(),
    {
        self.column_types.len()
    }

    /// The indices `0, 1, ..` below `n`.
    pub open spec fn all_columns(n: nat) -> Seq<usize> {
        Seq::new(n, |i: int| i as usize)
    }

    /// The columns of a default index: the first key, or all columns where
    /// there is no key or the first key is empty.
    pub fn default_key(&self) -> (r: Vec<usize>)
        ensures
            r@ == if self.keys@.len() > 0 && self.keys@[0]@.len() > 0 {
                self.keys@[0]@
            } else {
                Self::all_columns(self.column_types@.len())
            },
    {
        if self.keys.len() > 0 && self.keys[0].len() > 0 {
            clone_indices(&self.keys[0])
        } else {
            let n = self.column_types.len();
            let mut out: Vec<usize> = Vec::new();
            let mut i: usize = 0;
            while i < n
                invariant
                    i <= n,
                    out.len() == i,
                    forall|j: int| 0 <= j < i ==> out@[j] == j as usize,
                decreases n - i,
            {
                out.push(i);
                i += 1;
            }
            assert(out@ =~= Self::all_columns(n as nat));
            out
        }
    }
}

/// A column violates its not-null constraint; the name of the column, if
/// it has one.
#[derive(Debug, PartialEq, Eq)]
pub struct NotNullViolation(pub Option<ColumnName>);

impl NotNullViolation {
    /// The message of the violation: the name of the column between double
    /// quotes, written as a JSON text is, or `unnamed column` for a column
    /// without a name.
    pub open spec fn message_spec(self) -> Seq<char> {
        "null value in column "@ + crate::jsonb::quoted(
            match self.0 {
                Some(n) => n@,
                None => "unnamed column"@,
            },
        ) + " violates not-null constraint"@
    }

    /// The message of the violation.
    pub fn message(&self) -> (r: String)
        ensures
            r@ == self.message_spec(),
    {
        let mut out = String::new();
        out.append("null value in column ");
        match &self.0 {
            Some(n) => crate::jsonb::push_quoted(&mut out, n.as_str()),
            None => crate::jsonb::push_quoted(&mut out, "unnamed column"),
        }
        out.append(" violates not-null constraint");
        assert(out@ =~= self.message_spec());
        out
    }
}

/// The view of an optional column name.
pub open spec fn opt_name_view(n: Option<ColumnName>) -> Option<Seq<char>> {
    match n {
        Some(n) => Some(n@),
        None => None,
    }
}

/// The view of an optional borrowed column name.
pub open spec fn opt_ref_view(n: Option<&ColumnName>) -> Option<Seq<char>> {
    match n {
        Some(n) => Some(n@),
        None => None,
    }
}

/// The views of a list of optional column names.
pub open spec fn names_view(s: Seq<Option<ColumnName>>) -> Seq<Option<Seq<char>>> {
    Seq::new(s.len(), |i: int| opt_name_view(s[i]))
}

/// How many names of a list equal a given one.
pub open spec fn count_name(s: Seq<Option<Seq<char>>>, name: Option<Seq<char>>) -> nat
    decreases s.len(),
{
    if s.len() == 0 {
        0
    } else {
        count_name(s.drop_last(), name) + if s.last() == name {
            1nat
        } else {
            0nat
        }
    }
}

/// The shape of a relation: its type and the name of each column, where it
/// has one.
#[derive(Debug, PartialEq, Eq, Hash)]
pub struct RelationDesc {
    typ: RelationType,
    names: Vec<Option<ColumnName>>,
}

impl RelationDesc {
    /// A description is well formed when it has a name slot for each column.
    pub closed spec fn wf(self) -> bool {
        self.typ.column_types@.len() == self.names@.len()
    }

    /// The type of the relation.
    pub closed spec fn rel(self) -> RelationType {
        self.typ
    }

    /// The names of the columns.
    pub closed spec fn names(self) -> Seq<Option<Seq<char>>> {
        names_view(self.names@)
    }

    /// The types of the columns.
    pub open spec fn types(self) -> Seq<ColumnTypeV> {
        self.rel().types()
    }

    /// A well-formed description has as many names as columns.
    pub proof fn lemma_wf(self)
        requires
            self.wf(),
        ensures
            self.names().len() == self.types().len(),
    {
    }

    /// The description of the relation with no columns and no keys.
    pub fn empty() -> (r: RelationDesc)
        ensures
            r.wf(),
            r.types() == Seq::<ColumnTypeV>::empty(),
            r.names() == Seq::<Option<Seq<char>>>::empty(),
            r.rel().key_sets() == Seq::<Seq<usize>>::empty(),
    {
        let r = RelationDesc { typ: RelationType::empty(), names: Vec::new() };
        assert(r.names() =~= Seq::<Option<Seq<char>>>::empty());
        r
    }

    /// A description of a relation type and one name slot for each of its
    /// columns.
    pub fn new(typ: RelationType, names: Vec<Option<ColumnName>>) -> (r: RelationDesc)
        requires
            typ.column_types@.len() == names@.len(),
        ensures
            r.wf(),
            r.rel() == typ,
            r.names() == names_view(names@),
    {
        RelationDesc { typ, names }
    }

    /// A description of named column types, without keys.
    pub fn from_names_and_types(columns: Vec<(Option<ColumnName>, ColumnType)>) -> (r: RelationDesc)
        ensures
            r.wf(),
            r.names().len() == columns@.len(),
            r.types().len() == columns@.len(),
            forall|i: int|
                0 <= i < columns@.len() ==> r.names()[i] == opt_name_view(columns@[i].0) && r.types()[i]
                    == columns@[i].1@,
            r.rel().key_sets() == Seq::<Seq<usize>>::empty(),
    {
        let mut columns = columns;
        let ghost orig = columns@;
        let mut rev: Vec<(Option<ColumnName>, ColumnType)> = Vec::new();
        while columns.len() > 0
            invariant
                rev.len() + columns.len() == orig.len(),
                columns@ == orig.take(columns.len() as int),
                forall|j: int| 0 <= j < rev.len() ==> rev@[j] == orig[orig.len() - 1 - j],
            decreases columns.len(),
        {
            let ghost before = columns@;
            let c = columns.pop().unwrap();
            assert(columns@ =~= orig.take(columns.len() as int));
            rev.push(c);
        }
        let mut names: Vec<Option<ColumnName>> = Vec::new();
        let mut types: Vec<ColumnType> = Vec::new();
        while rev.len() > 0
            invariant
                names.len() + rev.len() == orig.len(),
                types.len() == names.len(),
                forall|j: int| 0 <= j < rev.len() ==> rev@[j] == orig[orig.len() - 1 - j],
                forall|j: int| 0 <= j < names.len() ==> names@[j] == orig[j].0 && types@[j] == orig[j].1,
            decreases rev.len(),
        {
            let (n, t) = rev.pop().unwrap();
            names.push(n);
            types.push(t);
        }
        let typ = RelationType::new(types);
        RelationDesc::new(typ, names)
    }

    /// Appends an optionally named column.
    pub fn with_column(self, name: Option<ColumnName>, column_type: ColumnType) -> (r: RelationDesc)
        requires
            self.wf(),
        ensures
            r.wf(),
            r.names() == self.names().push(opt_name_view(name)),
            r.types() == self.types().push(column_type@),
            r.rel().key_sets() == self.rel().key_sets(),
    {
        let mut this = self;
        this.typ.column_types.push(column_type);
        this.names.push(name);
        assert(this.names() =~= self.names().push(opt_name_view(name)));
        assert(this.types() =~= self.types().push(column_type@));
        this
    }

    /// Appends a named column.
    pub fn with_named_column(self, name: ColumnName, column_type: ColumnType) -> (r: RelationDesc)
        requires
            self.wf(),
        ensures
            r.wf(),
            r.names() == self.names().push(Some(name@)),
            r.types() == self.types().push(column_type@),
            r.rel().key_sets() == self.rel().key_sets(),
    {
        self.with_column(Some(name), column_type)
    }

    /// Adds a key.
    pub fn with_key(self, indices: Vec<usize>) -> (r: RelationDesc)
        requires
            self.wf(),
        ensures
            r.wf(),
            r.names() == self.names(),
            r.types() == self.types(),
            r.rel().key_sets() == RelationType::keys_with(self.rel().key_sets(), indices@),
    {
        let RelationDesc { typ, names } = self;
        RelationDesc { typ: typ.with_key(indices), names }
    }

    /// Drops all keys.
    pub fn without_keys(self) -> (r: RelationDesc)
        requires
            self.wf(),
        ensures
            r.wf(),
            r.names() == self.names(),
            r.types() == self.types(),
            r.rel().key_sets() == Seq::<Seq<usize>>::empty(),
    {
        let mut this = self;
        this.typ.keys.clear();
        assert(this.rel().key_sets() =~= Seq::<Seq<usize>>::empty());
        this
    }

    /// The same relation with other names for its columns.
    pub fn with_names(self, names: Vec<Option<ColumnName>>) -> (r: RelationDesc)
        requires
            self.wf(),
            names@.len() == self.types().len(),
        ensures
            r.wf(),
            r.rel() == self.rel(),
            r.names() == names_view(names@),
    {
        RelationDesc::new(self.typ, names)
    }

    /// The number of columns.
    pub fn arity(&self) -> (r: usize)
        ensures
            r == self.types().len(),
    {
        self.typ.arity()
    }

    /// The relation type underlying this description.
    pub fn typ(&self) -> (r: &RelationType)
        ensures
            *r == self.rel(),
    {
        &self.typ
    }

    /// The types of the columns, in order.
    pub fn iter_types(&self) -> (r: Vec<&ColumnType>)
        ensures
            r@.len() == self.types().len(),
            forall|i: int| 0 <= i < r@.len() ==> r@[i]@ == self.types()[i],
    {
        let mut out: Vec<&ColumnType> = Vec::new();
        let mut i: usize = 0;
        while i < self.typ.column_types.len()
            invariant
                i <= self.typ.column_types.len(),
                out.len() == i,
                forall|j: int| 0 <= j < i ==> *out@[j] == self.typ.column_types@[j],
            decreases self.typ.column_types.len() - i,
        {
            out.push(&self.typ.column_types[i]);
            i += 1;
        }
        out
    }

    /// The names of the columns, in order.
    pub fn iter_names(&self) -> (r: Vec<Option<&ColumnName>>)
        ensures
            r@.len() == self.names().len(),
            forall|i: int| 0 <= i < r@.len() ==> opt_ref_view(#[trigger] r@[i]) == self.names()[i],
    {
        let mut out: Vec<Option<&ColumnName>> = Vec::new();
        let mut i: usize = 0;
        while i < self.names.len()
            invariant
                i <= self.names.len(),
                out.len() == i,
                forall|j: int| 0 <= j < i ==> opt_ref_view(#[trigger] out@[j]) == opt_name_view(self.names@[j]),
            decreases self.names.len() - i,
        {
            out.push(self.names[i].as_ref());
            i += 1;
        }
        out
    }

    /// The columns of the relation, each with its name.
    pub fn iter(&self) -> (r: Vec<(Option<&ColumnName>, &ColumnType)>)
        requires
            self.wf(),
        ensures
            r@.len() == self.types().len(),
            forall|i: int|
                0 <= i < r@.len() ==> (#[trigger] r@[i]).1@ == self.types()[i] && opt_ref_view(r@[i].0)
                    == self.names()[i],
    {
        let mut out: Vec<(Option<&ColumnName>, &ColumnType)> = Vec::new();
        let mut i: usize = 0;
        while i < self.names.len()
            invariant
                self.wf(),
                i <= self.names.len(),
                out.len() == i,
                forall|j: int|
                    0 <= j < i ==> *(#[trigger] out@[j]).1 == self.typ.column_types@[j] && opt_ref_view(out@[j].0)
                        == opt_name_view(self.names@[j]),
            decreases self.names.len() - i,
        {
            out.push((self.names[i].as_ref(), &self.typ.column_types[i]));
            i += 1;
        }
        out
    }

    /// Finds a column by name: the index and the type of the leftmost
    /// column of that name, if there is one.
    pub fn get_by_name(&self, name: &ColumnName) -> (r: Option<(usize, &ColumnType)>)
        requires
            self.wf(),
        ensures
            match r {
                Some((i, t)) => {
                    &&& i < self.names().len()
                    &&& self.names()[i as int] == Some(name@)
                    &&& t@ == self.types()[i as int]
                    &&& forall|j: int| 0 <= j < i ==> self.names()[j] != Some(name@)
                },
                None => forall|j: int| 0 <= j < self.names().len() ==> self.names()[j] != Some(name@),
            },
    {
        let mut i: usize = 0;
        while i < self.names.len()
            invariant
                self.wf(),
                i <= self.names.len(),
                forall|j: int| 0 <= j < i ==> self.names()[j] != Some(name@),
            decreases self.names.len() - i,
        {
            let hit = match &self.names[i] {
                Some(n) => n.same(name),
                None => false,
            };
            if hit {
                return Some((i, &self.typ.column_types[i]));
            }
            i += 1;
        }
        None
    }

    /// The name of the `i`th column.
    pub fn get_name(&self, i: usize) -> (r: Option<&ColumnName>)
        requires
            i < self.names().len(),
        ensures
            match r {
                Some(n) => self.names()[i as int] == Some(n@),
                None => self.names()[i as int] is None,
            },
    {
        self.names[i].as_ref()
    }

    /// The name of the `i`th column, if no other column has that name.
    pub fn get_unambiguous_name(&self, i: usize) -> (r: Option<&ColumnName>)
        requires
            i < self.names().len(),
        ensures
            match r {
                Some(n) => self.names()[i as int] == Some(n@) && count_name(self.names(), Some(n@)) == 1,
                None => self.names()[i as int] is None || count_name(self.names(), self.names()[i as int])
                    != 1,
            },
    {
        let name = self.names[i].as_ref();
        let ghost target = self.names()[i as int];
        let mut count: usize = 0;
        let mut k: usize = 0;
        while k < self.names.len()
            invariant
                k <= self.names.len(),
                count <= k,
                count == count_name(self.names().take(k as int), target),
                target == self.names()[i as int],
                i < self.names().len(),
                match name {
                    Some(n) => target == Some(n@),
                    None => target is None,
                },
            decreases self.names.len() - k,
        {
            let same = match &self.names[k] {
                Some(a) => match name {
                    Some(b) => a.same(b),
                    None => false,
                },
                None => name.is_none(),
            };
            proof {
                assert(self.names().take(k + 1).drop_last() =~= self.names().take(k as int));
                assert(self.names().take(k + 1).last() == self.names()[k as int]);
            }
            if same {
                count += 1;
            }
            k += 1;
        }
        assert(self.names().take(self.names.len() as int) =~= self.names());
        if count == 1 {
            name
        } else {
            None
        }
    }

    /// Checks the constraints of the `i`th column against a datum: a
    /// column that is not nullable takes no null.
    pub fn constraints_met(&self, i: usize, d: &Datum) -> (r: Result<(), NotNullViolation>)
        requires
            self.wf(),
            i < self.types().len(),
        ensures
            match r {
                Ok(_) => !(d@.is_null() && !self.types()[i as int].nullable),
                Err(e) => d@.is_null() && !self.types()[i as int].nullable && opt_name_view(e.0)
                    == self.names()[i as int],
            },
    {
        if d.is_null() && !self.typ.column_types[i].nullable {
            let name = match &self.names[i] {
                Some(n) => Some(n.clone()),
                None => None,
            };
            Err(NotNullViolation(name))
        } else {
            Ok(())
        }
    }

    /// Concatenates another description onto the end of this one. The keys
    /// of the other are added with their indices moved past the columns of
    /// this one.
    pub fn concat(self, other: RelationDesc) -> (r: RelationDesc)
        requires
            self.wf(),
            other.wf(),
            self.types().len() + other.types().len() <= usize::MAX,
            forall|k: int, j: int|
                0 <= k < other.rel().key_sets().len() && 0 <= j < other.rel().key_sets()[k].len()
                    ==> (#[trigger] other.rel().key_sets()[k][j]) + self.types().len() <= usize::MAX,
        ensures
            r.wf(),
            r.names() == self.names() + other.names(),
            r.types() == self.types() + other.types(),
            r.rel().key_sets() == RelationType::keys_with_all(
                self.rel().key_sets(),
                shifted_keys(other.rel().key_sets(), self.types().len()),
            ),
    {
        let self_len = self.typ.column_types.len();
        let RelationDesc { typ: other_typ, names: other_names } = other;
        let RelationType { column_types: other_types, keys: other_keys } = other_typ;
        assert(keys_view(other_keys@) == other.rel().key_sets());
        assert(self_len == self.types().len());
        let mut this = self;
        let mut other_names = other_names;
        let mut other_types = other_types;
        let ghost on = names_view(other_names@);
        let ghost ot = column_types_view(other_types@);
        this.names.append(&mut other_names);
        this.typ.column_types.append(&mut other_types);
        assert(this.names() =~= self.names() + on);
        assert(this.types() =~= self.types() + ot);
        let mut shifted: Vec<Vec<usize>> = Vec::new();
        let mut k: usize = 0;
        while k < other_keys.len()
            invariant
                k <= other_keys.len(),
                shifted.len() == k,
                self_len == self.types().len(),
                forall|a: int, j: int|
                    0 <= a < keys_view(other_keys@).len() && 0 <= j < keys_view(other_keys@)[a].len()
                        ==> (#[trigger] keys_view(other_keys@)[a][j]) + self_len <= usize::MAX,
                forall|a: int| 0 <= a < k ==> shifted@[a]@ == shift_key(other_keys@[a]@, self_len as nat),
            decreases other_keys.len() - k,
        {
            let key = &other_keys[k];
            assert(key@ == keys_view(other_keys@)[k as int]);
            let mut moved: Vec<usize> = Vec::new();
            let mut j: usize = 0;
            while j < key.len()
                invariant
                    j <= key.len(),
                    moved.len() == j,
                    forall|b: int| 0 <= b < key@.len() ==> (#[trigger] key@[b]) + self_len <= usize::MAX,
                    forall|b: int| 0 <= b < j ==> moved@[b] == (key@[b] + self_len) as usize,
                decreases key.len() - j,
            {
                moved.push(key[j] + self_len);
                j += 1;
            }
            assert(moved@ =~= shift_key(key@, self_len as nat));
            shifted.push(moved);
            k += 1;
        }
        assert(keys_view(shifted@) =~= shifted_keys(keys_view(other_keys@), self_len as nat));
        let RelationDesc { typ, names } = this;
        RelationDesc { typ: typ.with_keys(shifted), names }
    }
}

/// A key with each index moved up by `n`.
pub open spec fn shift_key(key: Seq<usize>, n: nat) -> Seq<usize> {
    Seq::new(key.len(), |i: int| (key[i] + n) as usize)
}

/// Keys with each index moved up by `n`.
pub open spec fn shifted_keys(keys: Seq<Seq<usize>>, n: nat) -> Seq<Seq<usize>> {
    Seq::new(keys.len(), |i: int| shift_key(keys[i], n))
}

} // verus!
