//! Column paths, order-by clauses, and the transform from an abstract
//! order-by clause to a concrete one over physical columns.

use vstd::prelude::*;

verus! {

/// Ordering direction of one order-by element.
#[derive(Clone, Copy, Debug, PartialEq, Eq, Structural)]
pub enum Ordering {
    Asc,
    Desc,
}

impl DeepView for Ordering {
    type V = Ordering;

    open spec fn deep_view(&self) -> Ordering {
        *self
    }
}

/// Identifier of one column: an index into the schema's table arena and the
/// column's index within that table. All cross-references between tables go
/// through such identifiers, so self-referential schemas need no ownership
/// cycle.
#[derive(Clone, Copy, Debug, PartialEq, Eq)]
pub struct ColumnId {
    pub table_index: usize,
    pub column_index: usize,
}

/// One relation hop of a column path: the column on the path's current table,
/// and the column it references, absent at the path's leaf.
#[derive(Clone, Copy, Debug, PartialEq, Eq)]
pub struct ColumnPathLink {
    pub self_column: ColumnId,
    pub linked_column: Option<ColumnId>,
}

/// A reference to a column that may live across foreign-key relationships: an
/// ordered sequence of hops ending in a leaf column, or a literal or null
/// marker.
#[derive(Debug, PartialEq)]
pub enum ColumnPath {
    Physical(Vec<ColumnPathLink>),
    Literal(String),
    Null,
}

/// Mathematical model of a `ColumnPath`.
pub enum ColumnPathV {
    Physical(Seq<ColumnPathLink>),
    Literal(Seq<char>),
    Null,
}

impl View for ColumnPath {
    type V = ColumnPathV;

    open spec fn view(&self) -> ColumnPathV {
        match self {
            ColumnPath::Physical(links) => ColumnPathV::Physical(links@),
            ColumnPath::Literal(s) => ColumnPathV::Literal(s@),
            ColumnPath::Null => ColumnPathV::Null,
        }
    }
}

impl DeepView for ColumnPath {
    type V = ColumnPathV;

    open spec fn deep_view(&self) -> ColumnPathV {
        self.view()
    }
}

impl Clone for ColumnPath {
    fn clone(&self) -> (res: Self)
        ensures
            res@ == self@,
    {
        match self {
            ColumnPath::Physical(links) => {
                let mut copy: Vec<ColumnPathLink> = Vec::new();
                let mut i: usize = 0;
                while i < links.len()
                    invariant
                        i <= links.len(),
                        copy@ == links@.subrange(0, i as int),
                    decreases links.len() - i,
                {
                    copy.push(links[i]);
                    proof {
                        assert(copy@ =~= links@.subrange(0, i + 1 as int));
                    }
                    i = i + 1;
                }
                proof {
                    assert(links@.subrange(0, links@.len() as int) =~= links@);
                }
                ColumnPath::Physical(copy)
            },
            ColumnPath::Literal(s) => ColumnPath::Literal(s.clone()),
            ColumnPath::Null => ColumnPath::Null,
        }
    }
}

/// An abstract order-by clause: an ordered sequence of (column path,
/// direction) pairs. Order is significant and preserved through composition.
#[derive(Debug, PartialEq)]
pub struct AbstractOrderBy(pub Vec<(ColumnPath, Ordering)>);

impl View for AbstractOrderBy {
    type V = Seq<(ColumnPathV, Ordering)>;

    open spec fn view(&self) -> Seq<(ColumnPathV, Ordering)> {
        self.0.deep_view()
    }
}

/// One element of a concrete `ORDER BY` clause.
#[derive(Clone, Copy, Debug, PartialEq, Eq)]
pub struct OrderByElement {
    pub column: ColumnId,
    pub ordering: Ordering,
}

impl OrderByElement {
    pub fn new(column: ColumnId, ordering: Ordering) -> (r: Self)
        ensures
            r.column == column,
            r.ordering == ordering,
    {
        OrderByElement { column, ordering }
    }
}

/// A concrete `ORDER BY` clause over physical columns.
#[derive(Debug, PartialEq)]
pub struct OrderBy(pub Vec<OrderByElement>);

/// The path addresses a physical column through at least one hop.
pub open spec fn path_is_physical(p: ColumnPathV) -> bool {
    p matches ColumnPathV::Physical(links) && links.len() > 0
}

/// The physical column a path terminates in.
pub open spec fn spec_leaf_column(p: ColumnPathV) -> ColumnId
    recommends
        path_is_physical(p),
{
    match p {
        ColumnPathV::Physical(links) => links.last().self_column,
        _ => ColumnId { table_index: 0, column_index: 0 },
    }
}

/// The column a physical path terminates in. A literal or null path addresses
/// no column, so those are left out.
pub fn leaf_column(column_path: &ColumnPath) -> (r: ColumnId)
    requires
        path_is_physical(column_path@),
    ensures
        r == spec_leaf_column(column_path@),
{
    match column_path {
        ColumnPath::Physical(links) => links[links.len() - 1].self_column,
        _ => {
            proof {
                assert(false);
            }
            ColumnId { table_index: 0, column_index: 0 }
        },
    }
}

/// The concrete order-by clause corresponding to an abstract one: each
/// abstract column path replaced by the physical column it terminates in.
pub open spec fn spec_to_order_by(ob: Seq<(ColumnPathV, Ordering)>) -> Seq<OrderByElement> {
    Seq::new(
        ob.len(),
        |i: int| OrderByElement { column: spec_leaf_column(ob[i].0), ordering: ob[i].1 },
    )
}

/// The transformer lowering abstract constructs to concrete SQL for a
/// PostgreSQL store.
#[derive(Debug)]
pub struct Postgres {}

impl Postgres {
    /// Transforms an abstract order-by clause into a concrete one by
    /// replacing the abstract column paths with physical ones, preserving
    /// order, as in `ORDER BY t.a ASC, t2.b DESC`.
    pub fn to_order_by(&self, order_by: &AbstractOrderBy) -> (r: OrderBy)
        requires
            forall|i: int|
                0 <= i < order_by@.len() ==> path_is_physical((#[trigger] order_by@[i]).0),
        ensures
            r.0@ == spec_to_order_by(order_by@),
    {
        let ghost ob = order_by@;
        let mut elems: Vec<OrderByElement> = Vec::new();
        let mut i: usize = 0;
        while i < order_by.0.len()
            invariant
                i <= order_by.0.len(),
                ob == order_by@,
                ob.len() == order_by.0.len(),
                forall|k: int| 0 <= k < ob.len() ==> path_is_physical((#[trigger] ob[k]).0),
                elems@ == spec_to_order_by(ob).subrange(0, i as int),
            decreases order_by.0.len() - i,
        {
            let pair = &order_by.0[i];
            assert(pair.deep_view() == ob[i as int]);
            let column = leaf_column(&pair.0);
            elems.push(OrderByElement::new(column, pair.1));
            proof {
                assert(spec_to_order_by(ob)[i as int] == OrderByElement {
                    column: spec_leaf_column(ob[i as int].0),
                    ordering: ob[i as int].1,
                });
                assert(elems@ =~= spec_to_order_by(ob).subrange(0, i + 1 as int));
            }
            i = i + 1;
        }
        proof {
            assert(spec_to_order_by(ob).subrange(0, spec_to_order_by(ob).len() as int)
                =~= spec_to_order_by(ob));
        }
        OrderBy(elems)
    }
}

} // verus!
