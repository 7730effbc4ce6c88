//! Compilation of a GraphQL-shaped order-by argument into an abstract
//! order-by clause.
//!
//! The argument arrives in a generic tagged-value form. At each level the
//! parameter's declared type decides the step: a primitive type resolves the
//! leaf ordering token and terminates the path; a composite type recurses
//! with the path extended by the current hop. Sibling fields of one object
//! and elements of a list are independent; their results are concatenated in
//! declaration or list order.

use vstd::prelude::*;

use crate::order_by::{AbstractOrderBy, ColumnPath, ColumnPathLink, ColumnPathV, Ordering};
use crate::text::str_eq;

verus! {

/// A value in the generic tagged form the compiler consumes: object, list,
/// string, enum, number, boolean or null. The compiler depends only on this
/// shape, not on any source syntax.
#[derive(Debug, PartialEq)]
pub enum Val {
    Object(Vec<(String, Val)>),
    List(Vec<Val>),
    Str(String),
    Enum(String),
    Number(i64),
    Bool(bool),
    Null,
}

/// An error compiling one operation. A validation error names the offending
/// parameter and the reason; compilation of that operation is aborted.
#[derive(Debug, PartialEq)]
pub enum PostgresExecutionError {
    Validation(String, String),
    Generic(String),
}

/// Mathematical model of a `PostgresExecutionError`.
pub enum PostgresExecutionErrorV {
    Validation(Seq<char>, Seq<char>),
    Generic(Seq<char>),
}

impl View for PostgresExecutionError {
    type V = PostgresExecutionErrorV;

    open spec fn view(&self) -> PostgresExecutionErrorV {
        match self {
            PostgresExecutionError::Validation(param, reason) => {
                PostgresExecutionErrorV::Validation(param@, reason@)
            },
            PostgresExecutionError::Generic(msg) => PostgresExecutionErrorV::Generic(msg@),
        }
    }
}

/// The ordering a leaf token denotes: exactly the literal tokens `ASC` and
/// `DESC` succeed; any other string fails with an error naming the token.
pub open spec fn spec_str_ordering(s: Seq<char>) -> Result<Ordering, PostgresExecutionErrorV> {
    if s == "ASC"@ {
        Result::Ok(Ordering::Asc)
    } else if s == "DESC"@ {
        Result::Ok(Ordering::Desc)
    } else {
        Result::Err(
            PostgresExecutionErrorV::Generic("Cannot match "@ + s + " as valid ordering"@),
        )
    }
}

/// The ordering a leaf argument denotes. The token may arrive as an enum
/// value or as a string: the string form is required when the ordering
/// arrives through a variable rather than an inline literal. Any other shape
/// of value fails.
pub open spec fn spec_ordering(v: Val) -> Result<Ordering, PostgresExecutionErrorV> {
    match v {
        Val::Enum(s) => spec_str_ordering(s@),
        Val::Str(s) => spec_str_ordering(s@),
        _ => Result::Err(
            PostgresExecutionErrorV::Generic("Unable to process ordering argument"@),
        ),
    }
}

/// Exactly the tokens `ASC` and `DESC` resolve to an ordering; every other
/// token fails validation.
pub proof fn lemma_ordering_tokens(s: Seq<char>)
    ensures
        spec_str_ordering(s) is Ok <==> (s == "ASC"@ || s == "DESC"@),
        s == "ASC"@ ==> spec_str_ordering(s) == Result::<
            Ordering,
            PostgresExecutionErrorV,
        >::Ok(Ordering::Asc),
        s == "DESC"@ ==> spec_str_ordering(s) == Result::<
            Ordering,
            PostgresExecutionErrorV,
        >::Ok(Ordering::Desc),
{
    reveal_strlit("ASC");
    reveal_strlit("DESC");
    assert("ASC"@.len() == 3);
    assert("DESC"@.len() == 4);
}

/// One field of a composite order-by parameter type: its name, the arena
/// index of its own parameter type, and the relation hop that extends a
/// column path into it.
#[derive(Debug)]
pub struct OrderByParameter {
    pub name: String,
    pub type_id: usize,
    pub column_path_link: ColumnPathLink,
}

/// The kind of an order-by parameter type: a primitive type takes a leaf
/// ordering token; a composite type takes an object over its parameters.
#[derive(Debug)]
pub enum OrderByParameterTypeKind {
    Primitive,
    Composite { parameters: Vec<OrderByParameter> },
}

/// One order-by parameter type of the type arena.
#[derive(Debug)]
pub struct OrderByParameterType {
    pub name: String,
    pub kind: OrderByParameterTypeKind,
}

/// The order-by types of the system, an arena indexed by `type_id`.
/// Identifiers are stable, so the type graph may be cyclic.
#[derive(Debug)]
pub struct PostgresSubsystem {
    pub order_by_types: Vec<OrderByParameterType>,
}

/// Every parameter of every composite type points into the arena.
pub open spec fn types_wf(types: Seq<OrderByParameterType>) -> bool {
    forall|t: int|
        0 <= t < types.len() ==> match (#[trigger] types[t]).kind {
            OrderByParameterTypeKind::Composite { parameters } => forall|p: int|
                0 <= p < parameters@.len() ==> (#[trigger] parameters@[p]).type_id < types.len(),
            OrderByParameterTypeKind::Primitive => true,
        }
}

impl PostgresSubsystem {
    /// Every composite parameter's `type_id` points into the arena.
    pub open spec fn wf(&self) -> bool {
        types_wf(self.order_by_types@)
    }
}

/// The parent path extended by one relation hop; a root (absent or
/// non-physical) parent starts a fresh path.
pub open spec fn spec_to_column_path(parent: Option<ColumnPathV>, link: ColumnPathLink) -> ColumnPathV {
    match parent {
        Option::Some(ColumnPathV::Physical(links)) => ColumnPathV::Physical(links.push(link)),
        _ => ColumnPathV::Physical(seq![link]),
    }
}

/// Extends the parent column path by one relation hop.
pub fn to_column_path(parent: &Option<ColumnPath>, link: ColumnPathLink) -> (r: ColumnPath)
    ensures
        r@ == spec_to_column_path(
            match parent {
                Option::Some(p) => Option::Some(p@),
                Option::None => Option::None,
            },
            link,
        ),
{
    match parent {
        Option::Some(ColumnPath::Physical(links)) => {
            let mut copy: Vec<ColumnPathLink> = Vec::new();
            let mut i: usize = 0;
            while i < links.len()
                invariant
                    i <= links.len(),
                    copy@ == links@.subrange(0, i as int),
                decreases links.len() - i,
            {
                copy.push(links[i]);
                proof {
                    assert(copy@ =~= links@.subrange(0, i + 1 as int));
                }
                i = i + 1;
            }
            proof {
                assert(links@.subrange(0, links@.len() as int) =~= links@);
            }
            copy.push(link);
            ColumnPath::Physical(copy)
        },
        _ => {
            let mut links: Vec<ColumnPathLink> = Vec::new();
            links.push(link);
            proof {
                assert(links@ =~= seq![link]);
            }
            ColumnPath::Physical(links)
        },
    }
}

/// The first parameter of the given name, if any.
pub open spec fn find_param(params: Seq<OrderByParameter>, name: Seq<char>) -> Option<
    OrderByParameter,
>
    decreases params.len(),
{
    if params.len() == 0 {
        Option::None
    } else if params[0].name@ == name {
        Option::Some(params[0])
    } else {
        find_param(params.skip(1), name)
    }
}

/// The compiled form of an order-by argument: ordered (path, direction)
/// pairs, or the error that aborts the operation.
pub type OrderPairs = Seq<(ColumnPathV, Ordering)>;

/// Compiles one argument against the parameter type `t`. An object compiles
/// its fields in declaration order; a list compiles its elements in list
/// order; any other shape is an unsupported-shape error.
pub open spec fn compile_order_by(
    types: Seq<OrderByParameterType>,
    t: OrderByParameterType,
    parent: Option<ColumnPathV>,
    arg: Val,
) -> Result<OrderPairs, PostgresExecutionErrorV>
    decreases arg, 1int,
{
    match arg {
        Val::Object(fields) => compile_fields(types, t, parent, fields@),
        Val::List(elems) => compile_list(types, t, parent, elems@),
        _ => Result::Err(
            PostgresExecutionErrorV::Generic("Invalid order by argument shape"@),
        ),
    }
}

/// Compiles the fields of one order-by object, left to right, concatenating
/// the per-field results in declaration order; the first failing field's
/// error aborts.
pub open spec fn compile_fields(
    types: Seq<OrderByParameterType>,
    t: OrderByParameterType,
    parent: Option<ColumnPathV>,
    fields: Seq<(String, Val)>,
) -> Result<OrderPairs, PostgresExecutionErrorV>
    decreases fields, 0int,
{
    if fields.len() == 0 {
        Result::Ok(Seq::empty())
    } else {
        match compile_fields(types, t, parent, fields.drop_last()) {
            Result::Ok(pre) => match compile_pair(
                types,
                t,
                parent,
                fields.last().0@,
                fields.last().1,
            ) {
                Result::Ok(pairs) => Result::Ok(pre + pairs),
                Result::Err(e) => Result::Err(e),
            },
            Result::Err(e) => Result::Err(e),
        }
    }
}

/// Compiles the elements of a list-shaped order-by argument, concatenating
/// the per-element results in list order; the first failing element's error
/// aborts.
pub open spec fn compile_list(
    types: Seq<OrderByParameterType>,
    t: OrderByParameterType,
    parent: Option<ColumnPathV>,
    elems: Seq<Val>,
) -> Result<OrderPairs, PostgresExecutionErrorV>
    decreases elems, 0int,
{
    if elems.len() == 0 {
        Result::Ok(Seq::empty())
    } else {
        match compile_list(types, t, parent, elems.drop_last()) {
            Result::Ok(pre) => match compile_order_by(types, t, parent, elems.last()) {
                Result::Ok(pairs) => Result::Ok(pre + pairs),
                Result::Err(e) => Result::Err(e),
            },
            Result::Err(e) => Result::Err(e),
        }
    }
}

/// Compiles one `name: value` pair of an order-by object: an unknown field
/// name or a composite value against a primitive type fails validation; a
/// primitive parameter resolves the leaf token and terminates the path; a
/// composite parameter recurses with the path extended by its hop.
pub open spec fn compile_pair(
    types: Seq<OrderByParameterType>,
    t: OrderByParameterType,
    parent: Option<ColumnPathV>,
    name: Seq<char>,
    value: Val,
) -> Result<OrderPairs, PostgresExecutionErrorV>
    decreases value, 2int,
{
    match t.kind {
        OrderByParameterTypeKind::Composite { parameters } => {
            match find_param(parameters@, name) {
                Option::Some(param) => {
                    let new_path = spec_to_column_path(parent, param.column_path_link);
                    let base = types[param.type_id as int];
                    if base.kind is Primitive {
                        match spec_ordering(value) {
                            Result::Ok(o) => Result::Ok(seq![(new_path, o)]),
                            Result::Err(e) => Result::Err(e),
                        }
                    } else {
                        compile_order_by(types, base, Option::Some(new_path), value)
                    }
                },
                Option::None => Result::Err(
                    PostgresExecutionErrorV::Validation(name, "Invalid order by parameter"@),
                ),
            }
        },
        OrderByParameterTypeKind::Primitive => Result::Err(
            PostgresExecutionErrorV::Validation(name, "Invalid primitive order by parameter"@),
        ),
    }
}

/// The per-field results of a compiled order-by object, concatenated in
/// field declaration order.
pub open spec fn concat_field_results(
    types: Seq<OrderByParameterType>,
    t: OrderByParameterType,
    parent: Option<ColumnPathV>,
    fields: Seq<(String, Val)>,
) -> OrderPairs
    decreases fields.len(),
{
    if fields.len() == 0 {
        Seq::empty()
    } else {
        concat_field_results(types, t, parent, fields.drop_last()) + compile_pair(
            types,
            t,
            parent,
            fields.last().0@,
            fields.last().1,
        )->Ok_0
    }
}

/// The per-element results of a compiled list-shaped order-by argument,
/// concatenated in list order.
pub open spec fn concat_list_results(
    types: Seq<OrderByParameterType>,
    t: OrderByParameterType,
    parent: Option<ColumnPathV>,
    elems: Seq<Val>,
) -> OrderPairs
    decreases elems.len(),
{
    if elems.len() == 0 {
        Seq::empty()
    } else {
        concat_list_results(types, t, parent, elems.drop_last()) + compile_order_by(
            types,
            t,
            parent,
            elems.last(),
        )->Ok_0
    }
}

/// Flattening a nested order-by object preserves field declaration order:
/// when every field compiles, the object's compiled order-by is exactly the
/// concatenation of the per-field results, left to right, never reordered.
pub proof fn lemma_object_order(
    types: Seq<OrderByParameterType>,
    t: OrderByParameterType,
    parent: Option<ColumnPathV>,
    fields: Seq<(String, Val)>,
)
    requires
        forall|k: int|
            0 <= k < fields.len() ==> compile_pair(
                types,
                t,
                parent,
                (#[trigger] fields[k]).0@,
                fields[k].1,
            ) is Ok,
    ensures
        compile_fields(types, t, parent, fields) == Result::<
            OrderPairs,
            PostgresExecutionErrorV,
        >::Ok(concat_field_results(types, t, parent, fields)),
    decreases fields.len(),
{
    if fields.len() == 0 {
    } else {
        let pfx = fields.drop_last();
        assert(forall|k: int| 0 <= k < pfx.len() ==> #[trigger] pfx[k] == fields[k]);
        lemma_object_order(types, t, parent, pfx);
        assert(compile_pair(types, t, parent, fields.last().0@, fields.last().1) is Ok);
    }
}

/// Compiling a list-shaped order-by argument yields the concatenation of
/// each element's compiled order-by, in list order: when every element
/// compiles, the list's compiled order-by is exactly that concatenation.
pub proof fn lemma_list_order(
    types: Seq<OrderByParameterType>,
    t: OrderByParameterType,
    parent: Option<ColumnPathV>,
    elems: Seq<Val>,
)
    requires
        forall|k: int|
            0 <= k < elems.len() ==> compile_order_by(types, t, parent, #[trigger] elems[k]) is Ok,
    ensures
        compile_list(types, t, parent, elems) == Result::<
            OrderPairs,
            PostgresExecutionErrorV,
        >::Ok(concat_list_results(types, t, parent, elems)),
    decreases elems.len(),
{
    if elems.len() == 0 {
    } else {
        let pfx = elems.drop_last();
        assert(forall|k: int| 0 <= k < pfx.len() ==> #[trigger] pfx[k] == elems[k]);
        lemma_list_order(types, t, parent, pfx);
        assert(compile_order_by(types, t, parent, elems.last()) is Ok);
    }
}

/// The view of an optional parent path.
pub open spec fn opt_path_view(p: Option<ColumnPath>) -> Option<ColumnPathV> {
    match p {
        Option::Some(path) => Option::Some(path@),
        Option::None => Option::None,
    }
}

/// The type's composite parameters, if any, all point into the arena.
pub open spec fn type_wf(types: Seq<OrderByParameterType>, t: OrderByParameterType) -> bool {
    match t.kind {
        OrderByParameterTypeKind::Composite { parameters } => forall|p: int|
            0 <= p < parameters@.len() ==> (#[trigger] parameters@[p]).type_id < types.len(),
        OrderByParameterTypeKind::Primitive => true,
    }
}

proof fn lemma_types_wf_at(types: Seq<OrderByParameterType>, i: int)
    requires
        types_wf(types),
        0 <= i < types.len(),
    ensures
        type_wf(types, types[i]),
{
}

proof fn lemma_find_param_elem(params: Seq<OrderByParameter>, name: Seq<char>)
    requires
        find_param(params, name) is Some,
    ensures
        exists|k: int|
            0 <= k < params.len() && params[k] == find_param(params, name)->Some_0,
    decreases params.len(),
{
    if params.len() == 0 {
    } else if params[0].name@ == name {
        assert(params[0] == find_param(params, name)->Some_0);
    } else {
        lemma_find_param_elem(params.skip(1), name);
        let k = choose|k: int|
            0 <= k < params.skip(1).len() && params.skip(1)[k] == find_param(
                params.skip(1),
                name,
            )->Some_0;
        assert(params[k + 1] == find_param(params, name)->Some_0);
    }
}

proof fn lemma_fields_err(
    types: Seq<OrderByParameterType>,
    t: OrderByParameterType,
    parent: Option<ColumnPathV>,
    fields: Seq<(String, Val)>,
    i: int,
    e: PostgresExecutionErrorV,
    j: int,
)
    requires
        0 <= i < j <= fields.len(),
        compile_fields(types, t, parent, fields.subrange(0, i)) is Ok,
        compile_pair(types, t, parent, fields[i].0@, fields[i].1)
            == Result::<OrderPairs, PostgresExecutionErrorV>::Err(e),
    ensures
        compile_fields(types, t, parent, fields.subrange(0, j))
            == Result::<OrderPairs, PostgresExecutionErrorV>::Err(e),
    decreases j,
{
    if j == i + 1 {
        assert(fields.subrange(0, j).drop_last() =~= fields.subrange(0, i));
        assert(fields.subrange(0, j).last() == fields[i]);
    } else {
        lemma_fields_err(types, t, parent, fields, i, e, j - 1);
        assert(fields.subrange(0, j).drop_last() =~= fields.subrange(0, j - 1));
    }
}

proof fn lemma_list_err(
    types: Seq<OrderByParameterType>,
    t: OrderByParameterType,
    parent: Option<ColumnPathV>,
    elems: Seq<Val>,
    i: int,
    e: PostgresExecutionErrorV,
    j: int,
)
    requires
        0 <= i < j <= elems.len(),
        compile_list(types, t, parent, elems.subrange(0, i)) is Ok,
        compile_order_by(types, t, parent, elems[i])
            == Result::<OrderPairs, PostgresExecutionErrorV>::Err(e),
    ensures
        compile_list(types, t, parent, elems.subrange(0, j))
            == Result::<OrderPairs, PostgresExecutionErrorV>::Err(e),
    decreases j,
{
    if j == i + 1 {
        assert(elems.subrange(0, j).drop_last() =~= elems.subrange(0, i));
        assert(elems.subrange(0, j).last() == elems[i]);
    } else {
        lemma_list_err(types, t, parent, elems, i, e, j - 1);
        assert(elems.subrange(0, j).drop_last() =~= elems.subrange(0, j - 1));
    }
}

/// The first parameter of the given name, if any.
fn find_parameter<'a>(params: &'a Vec<OrderByParameter>, name: &str) -> (r: Option<
    &'a OrderByParameter,
>)
    ensures
        match r {
            Option::Some(p) => find_param(params@, name@) == Option::Some(*p),
            Option::None => find_param(params@, name@) is None,
        },
{
    let ghost ps = params@;
    proof {
        assert(ps.skip(0) =~= ps);
    }
    let mut i: usize = 0;
    while i < params.len()
        invariant
            i <= params.len(),
            ps == params@,
            find_param(ps, name@) == find_param(ps.skip(i as int), name@),
        decreases params.len() - i,
    {
        let p = &params[i];
        assert(ps.skip(i as int)[0] == ps[i as int]);
        if str_eq(p.name.as_str(), name) {
            return Some(p);
        }
        proof {
            assert(ps.skip(i as int).skip(1) =~= ps.skip(i + 1 as int));
        }
        i = i + 1;
    }
    proof {
        assert(ps.skip(ps.len() as int) =~= Seq::<OrderByParameter>::empty());
    }
    None
}

fn compile(
    types: &Vec<OrderByParameterType>,
    t: &OrderByParameterType,
    parent: &Option<ColumnPath>,
    arg: &Val,
) -> (r: Result<AbstractOrderBy, PostgresExecutionError>)
    requires
        types_wf(types@),
        type_wf(types@, *t),
    ensures
        match r {
            Result::Ok(ob) => compile_order_by(types@, *t, opt_path_view(*parent), *arg)
                == Result::<OrderPairs, PostgresExecutionErrorV>::Ok(ob@),
            Result::Err(e) => compile_order_by(types@, *t, opt_path_view(*parent), *arg)
                == Result::<OrderPairs, PostgresExecutionErrorV>::Err(e@),
        },
    decreases *arg, 1int,
{
    let ghost pv = opt_path_view(*parent);
    match arg {
        Val::Object(fields) => {
            let ghost fs = fields@;
            let mut acc: Vec<(ColumnPath, Ordering)> = Vec::new();
            proof {
                assert(fs.subrange(0, 0) =~= Seq::<(String, Val)>::empty());
                assert(acc.deep_view() =~= Seq::<(ColumnPathV, Ordering)>::empty());
            }
            let mut i: usize = 0;
            while i < fields.len()
                invariant
                    i <= fields.len(),
                    types_wf(types@),
                    type_wf(types@, *t),
                    fs == fields@,
                    fs.len() == fields.len(),
                    arg is Object,
                    fs == arg->Object_0@,
                    pv == opt_path_view(*parent),
                    compile_fields(types@, *t, pv, fs.subrange(0, i as int)) == Result::<
                        OrderPairs,
                        PostgresExecutionErrorV,
                    >::Ok(acc.deep_view()),
                decreases fields.len() - i,
            {
                let pair = &fields[i];
                assert(pair == fs[i as int]);
                proof {
                    assert(decreases_to!(*arg, 1int => pair.1, 2int));
                }
                let sub = order_by_pair(types, t, pair.0.as_str(), &pair.1, parent);
                match sub {
                    Result::Ok(mut ob) => {
                        let ghost acc_before = acc.deep_view();
                        let ghost obv = ob@;
                        acc.append(&mut ob.0);
                        proof {
                            assert(acc.deep_view() =~= acc_before + obv);
                            assert(fs.subrange(0, i + 1 as int).drop_last() =~= fs.subrange(
                                0,
                                i as int,
                            ));
                            assert(fs.subrange(0, i + 1 as int).last() == fs[i as int]);
                        }
                    },
                    Result::Err(e) => {
                        proof {
                            lemma_fields_err(types@, *t, pv, fs, i as int, e@, fs.len() as int);
                            assert(fs.subrange(0, fs.len() as int) =~= fs);
                        }
                        return Result::Err(e);
                    },
                }
                i = i + 1;
            }
            proof {
                assert(fs.subrange(0, fs.len() as int) =~= fs);
            }
            Result::Ok(AbstractOrderBy(acc))
        },
        Val::List(elems) => {
            let ghost es = elems@;
            let mut acc: Vec<(ColumnPath, Ordering)> = Vec::new();
            proof {
                assert(es.subrange(0, 0) =~= Seq::<Val>::empty());
                assert(acc.deep_view() =~= Seq::<(ColumnPathV, Ordering)>::empty());
            }
            let mut i: usize = 0;
            while i < elems.len()
                invariant
                    i <= elems.len(),
                    types_wf(types@),
                    type_wf(types@, *t),
                    es == elems@,
                    es.len() == elems.len(),
                    arg is List,
                    es == arg->List_0@,
                    pv == opt_path_view(*parent),
                    compile_list(types@, *t, pv, es.subrange(0, i as int)) == Result::<
                        OrderPairs,
                        PostgresExecutionErrorV,
                    >::Ok(acc.deep_view()),
                decreases elems.len() - i,
            {
                let elem = &elems[i];
                assert(*elem == es[i as int]);
                proof {
                    assert(decreases_to!(*arg, 1int => *elem, 1int));
                }
                let sub = compile(types, t, parent, elem);
                match sub {
                    Result::Ok(mut ob) => {
                        let ghost acc_before = acc.deep_view();
                        let ghost obv = ob@;
                        acc.append(&mut ob.0);
                        proof {
                            assert(acc.deep_view() =~= acc_before + obv);
                            assert(es.subrange(0, i + 1 as int).drop_last() =~= es.subrange(
                                0,
                                i as int,
                            ));
                            assert(es.subrange(0, i + 1 as int).last() == es[i as int]);
                        }
                    },
                    Result::Err(e) => {
                        proof {
                            lemma_list_err(types@, *t, pv, es, i as int, e@, es.len() as int);
                            assert(es.subrange(0, es.len() as int) =~= es);
                        }
                        return Result::Err(e);
                    },
                }
                i = i + 1;
            }
            proof {
                assert(es.subrange(0, es.len() as int) =~= es);
            }
            Result::Ok(AbstractOrderBy(acc))
        },
        _ => Result::Err(
            PostgresExecutionError::Generic("Invalid order by argument shape".to_owned()),
        ),
    }
}

/// Compiles one `name: value` pair of an order-by object against the
/// composite type `typ`.
fn order_by_pair(
    types: &Vec<OrderByParameterType>,
    typ: &OrderByParameterType,
    parameter_name: &str,
    parameter_value: &Val,
    parent_column_path: &Option<ColumnPath>,
) -> (r: Result<AbstractOrderBy, PostgresExecutionError>)
    requires
        types_wf(types@),
        type_wf(types@, *typ),
    ensures
        match r {
            Result::Ok(ob) => compile_pair(
                types@,
                *typ,
                opt_path_view(*parent_column_path),
                parameter_name@,
                *parameter_value,
            ) == Result::<OrderPairs, PostgresExecutionErrorV>::Ok(ob@),
            Result::Err(e) => compile_pair(
                types@,
                *typ,
                opt_path_view(*parent_column_path),
                parameter_name@,
                *parameter_value,
            ) == Result::<OrderPairs, PostgresExecutionErrorV>::Err(e@),
        },
    decreases *parameter_value, 2int,
{
    match &typ.kind {
        OrderByParameterTypeKind::Composite { parameters } => {
            match find_parameter(parameters, parameter_name) {
                Option::Some(param) => {
                    proof {
                        lemma_find_param_elem(parameters@, parameter_name@);
                    }
                    assert(param.type_id < types@.len());
                    let new_path = to_column_path(parent_column_path, param.column_path_link);
                    let base = &types[param.type_id];
                    proof {
                        lemma_types_wf_at(types@, param.type_id as int);
                    }
                    if matches!(base.kind, OrderByParameterTypeKind::Primitive) {
                        match ordering(parameter_value) {
                            Result::Ok(o) => {
                                let mut pairs: Vec<(ColumnPath, Ordering)> = Vec::new();
                                pairs.push((new_path, o));
                                let ghost npv = new_path@;
                                proof {
                                    assert(pairs.deep_view() =~= seq![(npv, o)]);
                                }
                                Result::Ok(AbstractOrderBy(pairs))
                            },
                            Result::Err(e) => Result::Err(e),
                        }
                    } else {
                        let new_parent = Some(new_path);
                        compile(types, base, &new_parent, parameter_value)
                    }
                },
                Option::None => Result::Err(
                    PostgresExecutionError::Validation(
                        parameter_name.to_owned(),
                        "Invalid order by parameter".to_owned(),
                    ),
                ),
            }
        },
        OrderByParameterTypeKind::Primitive => Result::Err(
            PostgresExecutionError::Validation(
                parameter_name.to_owned(),
                "Invalid primitive order by parameter".to_owned(),
            ),
        ),
    }
}

/// One order-by parameter together with the column path accumulated on the
/// way to it; the root input of a compilation has no parent path.
#[derive(Debug)]
pub struct OrderByParameterInput {
    pub param: OrderByParameter,
    pub parent_column_path: Option<ColumnPath>,
}

impl OrderByParameterInput {
    /// The name of the parameter being compiled.
    pub fn param_name(&self) -> (r: &str)
        ensures
            r@ == self.param.name@,
    {
        self.param.name.as_str()
    }

    /// Compiles the order-by argument against this parameter's type. The
    /// result concatenates per-field and per-element results in declaration
    /// and list order; the first failure aborts with its error.
    pub fn to_sql(&self, argument: &Val, subsystem: &PostgresSubsystem) -> (r: Result<
        AbstractOrderBy,
        PostgresExecutionError,
    >)
        requires
            subsystem.wf(),
            self.param.type_id < subsystem.order_by_types.len(),
        ensures
            match r {
                Result::Ok(ob) => compile_order_by(
                    subsystem.order_by_types@,
                    subsystem.order_by_types@[self.param.type_id as int],
                    opt_path_view(self.parent_column_path),
                    *argument,
                ) == Result::<OrderPairs, PostgresExecutionErrorV>::Ok(ob@),
                Result::Err(e) => compile_order_by(
                    subsystem.order_by_types@,
                    subsystem.order_by_types@[self.param.type_id as int],
                    opt_path_view(self.parent_column_path),
                    *argument,
                ) == Result::<OrderPairs, PostgresExecutionErrorV>::Err(e@),
            },
    {
        let t = &subsystem.order_by_types[self.param.type_id];
        proof {
            lemma_types_wf_at(subsystem.order_by_types@, self.param.type_id as int);
        }
        compile(&subsystem.order_by_types, t, &self.parent_column_path, argument)
    }
}

fn str_ordering(value: &str) -> (r: Result<Ordering, PostgresExecutionError>)
    ensures
        match r {
            Result::Ok(o) => spec_str_ordering(value@) == Result::<
                Ordering,
                PostgresExecutionErrorV,
            >::Ok(o),
            Result::Err(e) => spec_str_ordering(value@) == Result::<
                Ordering,
                PostgresExecutionErrorV,
            >::Err(e@),
        },
{
    if str_eq(value, "ASC") {
        Ok(Ordering::Asc)
    } else if str_eq(value, "DESC") {
        Ok(Ordering::Desc)
    } else {
        let mut msg = String::new();
        msg.append("Cannot match ");
        msg.append(value);
        msg.append(" as valid ordering");
        proof {
            assert(msg@ =~= "Cannot match "@ + value@ + " as valid ordering"@);
        }
        Err(PostgresExecutionError::Generic(msg))
    }
}

/// Resolves a leaf ordering argument.
pub fn ordering(argument: &Val) -> (r: Result<Ordering, PostgresExecutionError>)
    ensures
        match r {
            Result::Ok(o) => spec_ordering(*argument) == Result::<
                Ordering,
                PostgresExecutionErrorV,
            >::Ok(o),
            Result::Err(e) => spec_ordering(*argument) == Result::<
                Ordering,
                PostgresExecutionErrorV,
            >::Err(e@),
        },
{
    match argument {
        Val::Enum(value) => str_ordering(value.as_str()),
        Val::Str(value) => str_ordering(value.as_str()),
        _ => Err(
            PostgresExecutionError::Generic("Unable to process ordering argument".to_owned()),
        ),
    }
}

} // verus!
