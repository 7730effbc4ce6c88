//! Lowering of an abstract selection to concrete SQL columns: direct column
//! references, function applications, constants, JSON-shaped objects and
//! aggregates, and correlated sub-selects across relations.

use vstd::prelude::*;

use crate::order_by::ColumnId;

verus! {

/// A one-to-many relationship seen from the "one" side: the parent table's
/// primary-key column and the child table's foreign-key column.
#[derive(Clone, Copy, Debug, PartialEq, Eq)]
pub struct OneToMany {
    pub self_pk_column_id: ColumnId,
    pub foreign_column_id: ColumnId,
}

/// A many-to-one relationship seen from the "many" side: the table's
/// foreign-key column and the referenced table's primary-key column.
#[derive(Clone, Copy, Debug, PartialEq, Eq)]
pub struct ManyToOne {
    pub self_column_id: ColumnId,
    pub foreign_pk_column_id: ColumnId,
}

/// Identifier of one relationship: an index into the database's relation
/// arenas.
#[derive(Clone, Copy, Debug, PartialEq, Eq)]
pub enum RelationId {
    OneToMany(usize),
    ManyToOne(usize),
}

/// The physical schema arena: tables and the relationships between them,
/// addressed by index, so self-referential schemas need no ownership cycles.
#[derive(Debug, PartialEq)]
pub struct Database {
    pub tables: Vec<crate::table_spec::TableSpec>,
    pub one_to_many: Vec<OneToMany>,
    pub many_to_one: Vec<ManyToOne>,
}

/// How many rows a JSON-shaping selection stands for.
#[derive(Clone, Copy, Debug, PartialEq, Eq, Structural)]
pub enum SelectionCardinality {
    One,
    Many,
}

/// One element of a selection: a physical column, a named function applied
/// to a column, a constant, a nested JSON object, or a sub-selection across
/// a relation.
#[derive(Debug, PartialEq)]
pub enum SelectionElement {
    Physical(ColumnId),
    Function { function_name: String, column_id: ColumnId },
    Constant(String),
    Object(Vec<(String, SelectionElement)>),
    SubSelect(RelationId, Box<AbstractSelect>),
}

/// A selection element together with its output alias.
#[derive(Debug, PartialEq)]
pub struct AliasedSelectionElement {
    pub alias: String,
    pub column: SelectionElement,
}

/// A selection: either a flat ordered sequence of aliased columns, or a
/// JSON-shaping request with a declared cardinality.
#[derive(Debug, PartialEq)]
pub enum Selection {
    Flat(Vec<AliasedSelectionElement>),
    Json(Vec<AliasedSelectionElement>, SelectionCardinality),
}

/// An abstract select: one table and the selection to compile over it.
#[derive(Debug, PartialEq)]
pub struct AbstractSelect {
    pub table_id: usize,
    pub selection: Selection,
}

/// A concrete SQL column expression.
#[derive(Debug, PartialEq)]
pub enum Column {
    Physical(ColumnId),
    Function { function_name: String, column_id: ColumnId },
    Constant(String),
    JsonObject(Vec<(String, Column)>),
    JsonAgg(Box<Column>),
    SubSelect(Box<Select>),
}

/// A concrete predicate of a compiled select.
#[derive(Debug, PartialEq)]
pub enum ConcretePredicate {
    True,
    Eq(Column, Column),
}

/// A compiled select statement tree: the table, the output columns, and the
/// predicate tying it to its context.
#[derive(Debug, PartialEq)]
pub struct Select {
    pub table_id: usize,
    pub columns: Vec<Column>,
    pub predicate: Option<ConcretePredicate>,
}

/// The result of lowering a selection: one column, or a sequence of columns.
#[derive(Debug, PartialEq)]
pub enum SelectionSQL {
    Single(Column),
    Multiple(Vec<Column>),
}

/// Mathematical model of a `Column`.
pub enum ColumnV {
    Physical(ColumnId),
    Function { function_name: Seq<char>, column_id: ColumnId },
    Constant(Seq<char>),
    JsonObject(Seq<(Seq<char>, ColumnV)>),
    JsonAgg(Box<ColumnV>),
    SubSelect(Box<SelectV>),
}

/// Mathematical model of a `ConcretePredicate`.
pub enum ConcretePredicateV {
    True,
    Eq(ColumnV, ColumnV),
}

/// Mathematical model of a `Select`.
pub struct SelectV {
    pub table_id: int,
    pub columns: Seq<ColumnV>,
    pub predicate: Option<ConcretePredicateV>,
}

/// Mathematical model of a `SelectionSQL`.
pub enum SelectionSQLV {
    Single(ColumnV),
    Multiple(Seq<ColumnV>),
}

pub open spec fn column_view(c: Column) -> ColumnV
    decreases c, 1int,
{
    match c {
        Column::Physical(id) => ColumnV::Physical(id),
        Column::Function { function_name, column_id } => ColumnV::Function {
            function_name: function_name@,
            column_id,
        },
        Column::Constant(s) => ColumnV::Constant(s@),
        Column::JsonObject(elems) => ColumnV::JsonObject(json_elems_view(elems@)),
        Column::JsonAgg(inner) => ColumnV::JsonAgg(Box::new(column_view(*inner))),
        Column::SubSelect(select) => ColumnV::SubSelect(Box::new(select_view(*select))),
    }
}

pub open spec fn json_elems_view(elems: Seq<(String, Column)>) -> Seq<(Seq<char>, ColumnV)>
    decreases elems, 0int,
{
    if elems.len() == 0 {
        Seq::empty()
    } else {
        json_elems_view(elems.drop_last()).push(
            (elems.last().0@, column_view(elems.last().1)),
        )
    }
}

pub open spec fn columns_view(cols: Seq<Column>) -> Seq<ColumnV>
    decreases cols, 0int,
{
    if cols.len() == 0 {
        Seq::empty()
    } else {
        columns_view(cols.drop_last()).push(column_view(cols.last()))
    }
}

pub open spec fn predicate_view(p: ConcretePredicate) -> ConcretePredicateV
    decreases p, 3int,
{
    match p {
        ConcretePredicate::True => ConcretePredicateV::True,
        ConcretePredicate::Eq(a, b) => ConcretePredicateV::Eq(column_view(a), column_view(b)),
    }
}

pub open spec fn select_view(s: Select) -> SelectV
    decreases s, 5int,
{
    SelectV {
        table_id: s.table_id as int,
        columns: columns_view(s.columns@),
        predicate: match s.predicate {
            Option::Some(p) => Option::Some(predicate_view(p)),
            Option::None => Option::None,
        },
    }
}

impl View for Column {
    type V = ColumnV;

    open spec fn view(&self) -> ColumnV {
        column_view(*self)
    }
}

impl DeepView for Column {
    type V = ColumnV;

    open spec fn deep_view(&self) -> ColumnV {
        self.view()
    }
}

impl View for ConcretePredicate {
    type V = ConcretePredicateV;

    open spec fn view(&self) -> ConcretePredicateV {
        predicate_view(*self)
    }
}

impl View for Select {
    type V = SelectV;

    open spec fn view(&self) -> SelectV {
        select_view(*self)
    }
}

impl View for SelectionSQL {
    type V = SelectionSQLV;

    open spec fn view(&self) -> SelectionSQLV {
        match self {
            SelectionSQL::Single(c) => SelectionSQLV::Single(column_view(*c)),
            SelectionSQL::Multiple(cs) => SelectionSQLV::Multiple(columns_view(cs@)),
        }
    }
}

/// The pair of correlated columns of a sub-selection across the relation:
/// for a one-to-many relation the parent's primary-key column and the
/// child's foreign-key column; for a many-to-one relation the parent's
/// foreign-key column and the child's primary-key column — never the
/// reverse pairing.
pub open spec fn correlation_columns(rel: RelationId, db: Database) -> (ColumnId, ColumnId) {
    match rel {
        RelationId::OneToMany(i) => {
            (db.one_to_many@[i as int].self_pk_column_id, db.one_to_many@[i as int].foreign_column_id)
        },
        RelationId::ManyToOne(i) => {
            (db.many_to_one@[i as int].self_column_id, db.many_to_one@[i as int].foreign_pk_column_id)
        },
    }
}

/// The relation index points into the database's relation arenas.
pub open spec fn relation_wf(rel: RelationId, db: Database) -> bool {
    match rel {
        RelationId::OneToMany(i) => i < db.one_to_many@.len(),
        RelationId::ManyToOne(i) => i < db.many_to_one@.len(),
    }
}

/// Every relation referenced inside the element points into the arenas.
pub open spec fn element_wf(e: SelectionElement, db: Database) -> bool
    decreases e, 1int,
{
    match e {
        SelectionElement::Object(elems) => obj_elems_wf(elems@, db),
        SelectionElement::SubSelect(rel, select) => relation_wf(rel, db) && selection_wf(
            select.selection,
            db,
        ),
        _ => true,
    }
}

pub open spec fn obj_elems_wf(elems: Seq<(String, SelectionElement)>, db: Database) -> bool
    decreases elems, 0int,
{
    if elems.len() == 0 {
        true
    } else {
        obj_elems_wf(elems.drop_last(), db) && element_wf(elems.last().1, db)
    }
}

pub open spec fn aliased_wf(elems: Seq<AliasedSelectionElement>, db: Database) -> bool
    decreases elems, 0int,
{
    if elems.len() == 0 {
        true
    } else {
        aliased_wf(elems.drop_last(), db) && element_wf(elems.last().column, db)
    }
}

pub open spec fn selection_wf(s: Selection, db: Database) -> bool
    decreases s, 5int,
{
    match s {
        Selection::Flat(elems) => aliased_wf(elems@, db),
        Selection::Json(elems, _) => aliased_wf(elems@, db),
    }
}

/// The concrete column an element lowers to: a physical reference, a wrapped
/// function application, a literal, a JSON object built element by element,
/// or a correlated sub-select whose predicate is the key equality of the
/// relation.
pub open spec fn spec_element_to_sql(e: SelectionElement, db: Database) -> ColumnV
    decreases e, 1int,
{
    match e {
        SelectionElement::Physical(id) => ColumnV::Physical(id),
        SelectionElement::Function { function_name, column_id } => ColumnV::Function {
            function_name: function_name@,
            column_id,
        },
        SelectionElement::Constant(s) => ColumnV::Constant(s@),
        SelectionElement::Object(elems) => ColumnV::JsonObject(spec_obj_to_sql(elems@, db)),
        SelectionElement::SubSelect(rel, select) => {
            let cols = correlation_columns(rel, db);
            ColumnV::SubSelect(
                Box::new(
                    SelectV {
                        table_id: select.table_id as int,
                        columns: spec_selection_aggregate(select.selection, db),
                        predicate: Option::Some(
                            ConcretePredicateV::Eq(
                                ColumnV::Physical(cols.0),
                                ColumnV::Physical(cols.1),
                            ),
                        ),
                    },
                ),
            )
        },
    }
}

pub open spec fn spec_obj_to_sql(elems: Seq<(String, SelectionElement)>, db: Database) -> Seq<
    (Seq<char>, ColumnV),
>
    decreases elems, 0int,
{
    if elems.len() == 0 {
        Seq::empty()
    } else {
        spec_obj_to_sql(elems.drop_last(), db).push(
            (elems.last().0@, spec_element_to_sql(elems.last().1, db)),
        )
    }
}

/// The columns of a flat selection, in order.
pub open spec fn spec_flat_columns(elems: Seq<AliasedSelectionElement>, db: Database) -> Seq<
    ColumnV,
>
    decreases elems, 0int,
{
    if elems.len() == 0 {
        Seq::empty()
    } else {
        spec_flat_columns(elems.drop_last(), db).push(
            spec_element_to_sql(elems.last().column, db),
        )
    }
}

/// The (alias, column) pairs of a JSON-shaping selection, in order.
pub open spec fn spec_json_elems(elems: Seq<AliasedSelectionElement>, db: Database) -> Seq<
    (Seq<char>, ColumnV),
>
    decreases elems, 0int,
{
    if elems.len() == 0 {
        Seq::empty()
    } else {
        spec_json_elems(elems.drop_last(), db).push(
            (elems.last().alias@, spec_element_to_sql(elems.last().column, db)),
        )
    }
}

/// The lowering of a selection: a flat selection lowers each element
/// independently; a JSON-shaping selection builds a JSON object, wrapped in
/// a JSON aggregate for `Many` cardinality.
pub open spec fn spec_selection_to_sql(s: Selection, db: Database) -> SelectionSQLV
    decreases s, 5int,
{
    match s {
        Selection::Flat(elems) => SelectionSQLV::Multiple(spec_flat_columns(elems@, db)),
        Selection::Json(elems, cardinality) => {
            let json_obj = ColumnV::JsonObject(spec_json_elems(elems@, db));
            match cardinality {
                SelectionCardinality::One => SelectionSQLV::Single(json_obj),
                SelectionCardinality::Many => SelectionSQLV::Single(
                    ColumnV::JsonAgg(Box::new(json_obj)),
                ),
            }
        },
    }
}

/// The lowered selection as a column list.
pub open spec fn spec_selection_aggregate(s: Selection, db: Database) -> Seq<ColumnV>
    decreases s, 6int,
{
    match spec_selection_to_sql(s, db) {
        SelectionSQLV::Single(c) => seq![c],
        SelectionSQLV::Multiple(cs) => cs,
    }
}

/// The view of an optional concrete predicate.
pub open spec fn opt_predicate_view(p: Option<ConcretePredicate>) -> Option<ConcretePredicateV> {
    match p {
        Option::Some(pred) => Option::Some(predicate_view(pred)),
        Option::None => Option::None,
    }
}

/// A one-to-many sub-selection correlates on `parent.pk = child.fk`; a
/// many-to-one sub-selection correlates on `parent.fk = child.pk` — never
/// the reverse pairing.
pub proof fn lemma_subselect_correlation(e: SelectionElement, db: Database)
    requires
        e is SubSelect,
        relation_wf(e->SubSelect_0, db),
    ensures
        spec_element_to_sql(e, db) matches ColumnV::SubSelect(s) && {
            &&& (e->SubSelect_0 matches RelationId::OneToMany(i) ==> s.predicate
                == Option::Some(
                ConcretePredicateV::Eq(
                    ColumnV::Physical(db.one_to_many@[i as int].self_pk_column_id),
                    ColumnV::Physical(db.one_to_many@[i as int].foreign_column_id),
                ),
            ))
            &&& (e->SubSelect_0 matches RelationId::ManyToOne(i) ==> s.predicate
                == Option::Some(
                ConcretePredicateV::Eq(
                    ColumnV::Physical(db.many_to_one@[i as int].self_column_id),
                    ColumnV::Physical(db.many_to_one@[i as int].foreign_pk_column_id),
                ),
            ))
        },
{
}

proof fn lemma_obj_elems_wf_at(elems: Seq<(String, SelectionElement)>, db: Database, k: int)
    requires
        obj_elems_wf(elems, db),
        0 <= k < elems.len(),
    ensures
        element_wf(elems[k].1, db),
    decreases elems.len(),
{
    if k == elems.len() - 1 {
    } else {
        lemma_obj_elems_wf_at(elems.drop_last(), db, k);
        assert(elems.drop_last()[k] == elems[k]);
    }
}

proof fn lemma_aliased_wf_at(elems: Seq<AliasedSelectionElement>, db: Database, k: int)
    requires
        aliased_wf(elems, db),
        0 <= k < elems.len(),
    ensures
        element_wf(elems[k].column, db),
    decreases elems.len(),
{
    if k == elems.len() - 1 {
    } else {
        lemma_aliased_wf_at(elems.drop_last(), db, k);
        assert(elems.drop_last()[k] == elems[k]);
    }
}

impl SelectionElement {
    /// Lowers one selection element to its concrete column.
    pub fn to_sql(&self, transformer: &crate::order_by::Postgres, database: &Database) -> (r:
        Column)
        requires
            element_wf(*self, *database),
        ensures
            r@ == spec_element_to_sql(*self, *database),
        decreases *self, 1int,
    {
        match self {
            SelectionElement::Physical(column_id) => Column::Physical(*column_id),
            SelectionElement::Function { function_name, column_id } => Column::Function {
                function_name: function_name.clone(),
                column_id: *column_id,
            },
            SelectionElement::Constant(s) => Column::Constant(s.clone()),
            SelectionElement::Object(elements) => {
                let ghost es = elements@;
                let mut elems: Vec<(String, Column)> = Vec::new();
                proof {
                    assert(es.subrange(0, 0) =~= Seq::<(String, SelectionElement)>::empty());
                    assert(elems@ =~= Seq::<(String, Column)>::empty());
                }
                let mut i: usize = 0;
                while i < elements.len()
                    invariant
                        i <= elements.len(),
                        es == elements@,
                        es.len() == elements.len(),
                        self is Object,
                        es == self->Object_0@,
                        element_wf(*self, *database),
                        json_elems_view(elems@) == spec_obj_to_sql(
                            es.subrange(0, i as int),
                            *database,
                        ),
                    decreases elements.len() - i,
                {
                    let pair = &elements[i];
                    assert(*pair == es[i as int]);
                    proof {
                        lemma_obj_elems_wf_at(es, *database, i as int);
                        assert(decreases_to!(*self, 1int => pair.1, 1int));
                    }
                    let ghost elems_before = elems@;
                    let col = pair.1.to_sql(transformer, database);
                    elems.push((pair.0.clone(), col));
                    proof {
                        assert(elems@.drop_last() =~= elems_before);
                        assert(es.subrange(0, i + 1 as int).drop_last() =~= es.subrange(
                            0,
                            i as int,
                        ));
                        assert(es.subrange(0, i + 1 as int).last() == es[i as int]);
                    }
                    i = i + 1;
                }
                proof {
                    assert(es.subrange(0, es.len() as int) =~= es);
                }
                Column::JsonObject(elems)
            },
            SelectionElement::SubSelect(relation_id, select) => {
                let pair = match relation_id {
                    RelationId::OneToMany(i) => {
                        let rel = &database.one_to_many[*i];
                        (rel.self_pk_column_id, rel.foreign_column_id)
                    },
                    RelationId::ManyToOne(i) => {
                        let rel = &database.many_to_one[*i];
                        (rel.self_column_id, rel.foreign_pk_column_id)
                    },
                };
                let subselect_predicate = Some(
                    ConcretePredicate::Eq(Column::Physical(pair.0), Column::Physical(pair.1)),
                );
                proof {
                    assert(decreases_to!(*self, 1int => **select, 7int));
                }
                let sub = transformer.compute_select(select, subselect_predicate, database);
                Column::SubSelect(Box::new(sub))
            },
        }
    }
}

impl Selection {
    /// Lowers the selection: a flat selection lowers each element
    /// independently; a JSON-shaping selection builds a JSON object column,
    /// wrapped in a JSON aggregate for `Many` cardinality.
    pub fn to_sql(&self, select_transformer: &crate::order_by::Postgres, database: &Database) -> (r:
        SelectionSQL)
        requires
            selection_wf(*self, *database),
        ensures
            r@ == spec_selection_to_sql(*self, *database),
        decreases *self, 5int,
    {
        match self {
            Selection::Flat(elements) => {
                let ghost es = elements@;
                let mut cols: Vec<Column> = Vec::new();
                proof {
                    assert(es.subrange(0, 0) =~= Seq::<AliasedSelectionElement>::empty());
                    assert(cols@ =~= Seq::<Column>::empty());
                }
                let mut i: usize = 0;
                while i < elements.len()
                    invariant
                        i <= elements.len(),
                        es == elements@,
                        es.len() == elements.len(),
                        self is Flat,
                        es == self->Flat_0@,
                        selection_wf(*self, *database),
                        columns_view(cols@) == spec_flat_columns(
                            es.subrange(0, i as int),
                            *database,
                        ),
                    decreases elements.len() - i,
                {
                    let elem = &elements[i];
                    assert(*elem == es[i as int]);
                    proof {
                        lemma_aliased_wf_at(es, *database, i as int);
                        assert(decreases_to!(*self, 5int => elem.column, 1int));
                    }
                    let ghost cols_before = cols@;
                    let col = elem.column.to_sql(select_transformer, database);
                    cols.push(col);
                    proof {
                        assert(cols@.drop_last() =~= cols_before);
                        assert(es.subrange(0, i + 1 as int).drop_last() =~= es.subrange(
                            0,
                            i as int,
                        ));
                        assert(es.subrange(0, i + 1 as int).last() == es[i as int]);
                    }
                    i = i + 1;
                }
                proof {
                    assert(es.subrange(0, es.len() as int) =~= es);
                }
                SelectionSQL::Multiple(cols)
            },
            Selection::Json(elements, cardinality) => {
                let ghost es = elements@;
                let mut object_elems: Vec<(String, Column)> = Vec::new();
                proof {
                    assert(es.subrange(0, 0) =~= Seq::<AliasedSelectionElement>::empty());
                    assert(object_elems@ =~= Seq::<(String, Column)>::empty());
                }
                let mut i: usize = 0;
                while i < elements.len()
                    invariant
                        i <= elements.len(),
                        es == elements@,
                        es.len() == elements.len(),
                        self is Json,
                        es == self->Json_0@,
                        selection_wf(*self, *database),
                        json_elems_view(object_elems@) == spec_json_elems(
                            es.subrange(0, i as int),
                            *database,
                        ),
                    decreases elements.len() - i,
                {
                    let elem = &elements[i];
                    assert(*elem == es[i as int]);
                    proof {
                        lemma_aliased_wf_at(es, *database, i as int);
                        assert(decreases_to!(*self, 5int => elem.column, 1int));
                    }
                    let ghost elems_before = object_elems@;
                    let col = elem.column.to_sql(select_transformer, database);
                    object_elems.push((elem.alias.clone(), col));
                    proof {
                        assert(object_elems@.drop_last() =~= elems_before);
                        assert(es.subrange(0, i + 1 as int).drop_last() =~= es.subrange(
                            0,
                            i as int,
                        ));
                        assert(es.subrange(0, i + 1 as int).last() == es[i as int]);
                    }
                    i = i + 1;
                }
                proof {
                    assert(es.subrange(0, es.len() as int) =~= es);
                }
                let json_obj = Column::JsonObject(object_elems);
                match cardinality {
                    SelectionCardinality::One => SelectionSQL::Single(json_obj),
                    SelectionCardinality::Many => SelectionSQL::Single(
                        Column::JsonAgg(Box::new(json_obj)),
                    ),
                }
            },
        }
    }

    /// The lowered selection as a column list.
    pub fn selection_aggregate(
        &self,
        select_transformer: &crate::order_by::Postgres,
        database: &Database,
    ) -> (r: Vec<Column>)
        requires
            selection_wf(*self, *database),
        ensures
            columns_view(r@) == spec_selection_aggregate(*self, *database),
        decreases *self, 6int,
    {
        match self.to_sql(select_transformer, database) {
            SelectionSQL::Single(elem) => {
                let mut cols: Vec<Column> = Vec::new();
                let ghost ev = elem@;
                cols.push(elem);
                proof {
                    let empty_cols = Seq::<Column>::empty();
                    assert(columns_view(empty_cols) == Seq::<ColumnV>::empty());
                    assert(cols@.drop_last() =~= empty_cols);
                    assert(cols@.last() == cols@[0]);
                    assert(columns_view(cols@) =~= seq![ev]);
                }
                cols
            },
            SelectionSQL::Multiple(elems) => elems,
        }
    }
}

impl crate::order_by::Postgres {
    /// Compiles an abstract select, with the given predicate, into a
    /// concrete select statement tree.
    pub fn compute_select(
        &self,
        select: &AbstractSelect,
        predicate: Option<ConcretePredicate>,
        database: &Database,
    ) -> (r: Select)
        requires
            selection_wf(select.selection, *database),
        ensures
            r@ == (SelectV {
                table_id: select.table_id as int,
                columns: spec_selection_aggregate(select.selection, *database),
                predicate: opt_predicate_view(predicate),
            }),
        decreases *select, 8int,
    {
        proof {
            assert(decreases_to!(*select, 8int => select.selection, 6int));
        }
        let columns = select.selection.selection_aggregate(self, database);
        Select { table_id: select.table_id, columns, predicate }
    }
}

} // verus!
