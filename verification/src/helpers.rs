//! Queries taken through the stages of a query engine.
use vstd::prelude::*;

verus! {

/// Which state of a transformed plan is meant.
#[derive(Clone, Copy, Debug, PartialEq, Eq, Structural)]
pub enum Snapshot {
    Latest,
    Oldest,
}

/// The stages that a query engine offers. Nothing is asked of what they do.
pub trait QueryEngine: Sized {
    type Value;

    type Plan;

    type ExecutionPlan;

    type NodeId;

    type SyntaxPlan;

    type OrderedNodes;

    type SyntaxData;

    /// What narrows down the writing of a query.
    type SqlOptions;

    /// A query with its parameters.
    type Sql;

    /// What comes with a written query.
    type Attachment;

    type Error: core::fmt::Debug;

    /// Parses a query and resolves its names.
    fn transform_into_plan(&self, query: &str) -> Result<Self::Plan, Self::Error>;

    /// Puts parameters in their places.
    fn bind_params(&self, plan: Self::Plan, params: Vec<Self::Value>) -> Result<
        Self::Plan,
        Self::Error,
    >;

    /// Applies the options of the query.
    fn apply_options(&self, plan: Self::Plan) -> Result<Self::Plan, Self::Error>;

    /// Optimizes a plan.
    fn optimize(&self, plan: Self::Plan) -> Result<Self::Plan, Self::Error>;

    /// Makes a plan ready for execution.
    fn execution_plan(&self, plan: Self::Plan) -> Self::ExecutionPlan;

    /// The top node of a plan.
    fn get_top(&self, plan: &Self::ExecutionPlan) -> Result<Self::NodeId, Self::Error>;

    /// The syntax tree of a plan, from a node down.
    fn syntax_plan(
        &self,
        plan: &Self::ExecutionPlan,
        top: Self::NodeId,
        snapshot: Snapshot,
    ) -> Result<Self::SyntaxPlan, Self::Error>;

    /// Puts the nodes of a syntax tree in the order of the text.
    fn ordered_nodes(&self, tree: Self::SyntaxPlan) -> Result<Self::OrderedNodes, Self::Error>;

    /// What the ordered nodes hold.
    fn to_syntax_data(&self, nodes: &Self::OrderedNodes) -> Result<
        Self::SyntaxData,
        Self::Error,
    >;

    /// Writes a plan as a parameterized query.
    fn to_sql(
        &self,
        plan: &Self::ExecutionPlan,
        nodes: &Self::SyntaxData,
        name_base: &str,
        options: Option<Self::SqlOptions>,
    ) -> Result<(Self::Sql, Self::Attachment), Self::Error>;
}

pub open spec fn parses_to<E: QueryEngine>(
    engine: &E,
    query: &str,
    r: Result<E::Plan, E::Error>,
) -> bool {
    call_ensures(E::transform_into_plan, (engine, query), r)
}

pub open spec fn binds_to<E: QueryEngine>(
    engine: &E,
    plan: E::Plan,
    params: Vec<E::Value>,
    r: Result<E::Plan, E::Error>,
) -> bool {
    call_ensures(E::bind_params, (engine, plan, params), r)
}

pub open spec fn configures_to<E: QueryEngine>(
    engine: &E,
    plan: E::Plan,
    r: Result<E::Plan, E::Error>,
) -> bool {
    call_ensures(E::apply_options, (engine, plan), r)
}

pub open spec fn optimizes_to<E: QueryEngine>(
    engine: &E,
    plan: E::Plan,
    r: Result<E::Plan, E::Error>,
) -> bool {
    call_ensures(E::optimize, (engine, plan), r)
}

pub open spec fn executes_as<E: QueryEngine>(
    engine: &E,
    plan: E::Plan,
    r: E::ExecutionPlan,
) -> bool {
    call_ensures(E::execution_plan, (engine, plan), r)
}

pub open spec fn has_top<E: QueryEngine>(
    engine: &E,
    plan: E::ExecutionPlan,
    r: Result<E::NodeId, E::Error>,
) -> bool {
    call_ensures(E::get_top, (engine, &plan), r)
}

pub open spec fn has_syntax<E: QueryEngine>(
    engine: &E,
    plan: E::ExecutionPlan,
    top: E::NodeId,
    r: Result<E::SyntaxPlan, E::Error>,
) -> bool {
    call_ensures(E::syntax_plan, (engine, &plan, top, Snapshot::Latest), r)
}

pub open spec fn orders_to<E: QueryEngine>(
    engine: &E,
    tree: E::SyntaxPlan,
    r: Result<E::OrderedNodes, E::Error>,
) -> bool {
    call_ensures(E::ordered_nodes, (engine, tree), r)
}

pub open spec fn holds_data<E: QueryEngine>(
    engine: &E,
    nodes: E::OrderedNodes,
    r: Result<E::SyntaxData, E::Error>,
) -> bool {
    call_ensures(E::to_syntax_data, (engine, &nodes), r)
}

pub open spec fn writes_to<E: QueryEngine>(
    engine: &E,
    plan: E::ExecutionPlan,
    nodes: E::SyntaxData,
    r: Result<(E::Sql, E::Attachment), E::Error>,
) -> bool {
    call_ensures(E::to_sql, (engine, &plan, &nodes, "", None::<E::SqlOptions>), r)
}

/// `plan` is what the query gives once its parameters are bound and its options applied, in
/// this order.
pub open spec fn is_ir<E: QueryEngine>(
    engine: &E,
    query: &str,
    params: Vec<E::Value>,
    plan: E::Plan,
) -> bool {
    exists|parsed: E::Plan, bound: E::Plan|
        {
            &&& parses_to(engine, query, Ok(parsed))
            &&& #[trigger] binds_to(engine, parsed, params, Ok(bound))
            &&& #[trigger] configures_to(engine, bound, Ok(plan))
        }
}

/// The query is correct: every stage up to the options succeeds.
pub open spec fn is_correct<E: QueryEngine>(
    engine: &E,
    query: &str,
    params: Vec<E::Value>,
) -> bool {
    &&& forall|r: Result<E::Plan, E::Error>| #[trigger] parses_to(engine, query, r) ==> r is Ok
    &&& forall|parsed: E::Plan, r: Result<E::Plan, E::Error>|
        parses_to(engine, query, Ok(parsed)) && #[trigger] binds_to(engine, parsed, params, r)
            ==> r is Ok
    &&& forall|parsed: E::Plan, bound: E::Plan, r: Result<E::Plan, E::Error>|
        {
            &&& parses_to(engine, query, Ok(parsed))
            &&& #[trigger] binds_to(engine, parsed, params, Ok(bound))
            &&& #[trigger] configures_to(engine, bound, r)
        } ==> r is Ok
}

/// `sql` is what the plan is written as: its syntax tree in the latest state, from the top
/// node down, in the order of the text.
pub open spec fn is_written<E: QueryEngine>(engine: &E, plan: E::Plan, sql: E::Sql) -> bool {
    exists|
        executed: E::ExecutionPlan,
        top: E::NodeId,
        tree: E::SyntaxPlan,
        ordered: E::OrderedNodes,
        nodes: E::SyntaxData,
        attachment: E::Attachment,
    |
        {
            &&& #[trigger] executes_as(engine, plan, executed)
            &&& #[trigger] has_top(engine, executed, Ok(top))
            &&& #[trigger] has_syntax(engine, executed, top, Ok(tree))
            &&& #[trigger] orders_to(engine, tree, Ok(ordered))
            &&& #[trigger] holds_data(engine, ordered, Ok(nodes))
            &&& #[trigger] writes_to(engine, executed, nodes, Ok((sql, attachment)))
        }
}

pub open spec fn nodes_writable<E: QueryEngine>(
    engine: &E,
    plan: E::ExecutionPlan,
    ordered: E::OrderedNodes,
) -> bool {
    forall|nodes: Result<E::SyntaxData, E::Error>| #[trigger]
        holds_data(engine, ordered, nodes) ==> nodes is Ok && forall|
            r: Result<(E::Sql, E::Attachment), E::Error>,
        | #[trigger]
            writes_to(engine, plan, nodes->Ok_0, r) ==> r is Ok
}

pub open spec fn tree_writable<E: QueryEngine>(
    engine: &E,
    plan: E::ExecutionPlan,
    top: E::NodeId,
) -> bool {
    forall|tree: Result<E::SyntaxPlan, E::Error>| #[trigger]
        has_syntax(engine, plan, top, tree) ==> tree is Ok && forall|
            ordered: Result<E::OrderedNodes, E::Error>,
        | #[trigger]
            orders_to(engine, tree->Ok_0, ordered) ==> ordered is Ok && nodes_writable(
                engine,
                plan,
                ordered->Ok_0,
            )
}

/// The plan can be written as a query: every stage of writing succeeds.
pub open spec fn is_writable<E: QueryEngine>(engine: &E, plan: E::Plan) -> bool {
    forall|executed: E::ExecutionPlan, top: Result<E::NodeId, E::Error>|
        #[trigger] executes_as(engine, plan, executed) && #[trigger] has_top(engine, executed, top)
            ==> top is Ok && tree_writable(engine, executed, top->Ok_0)
}

/// Compiles an SQL query to a plan whose parameters are still open.
pub fn sql_to_ir_without_bind<E: QueryEngine>(engine: &E, query: &str) -> (plan: E::Plan)
    requires
        forall|r: Result<E::Plan, E::Error>| #[trigger] parses_to(engine, query, r) ==> r is Ok,
    ensures
        parses_to(engine, query, Ok(plan)),
{
    let parsed = engine.transform_into_plan(query);
    assert(parses_to(engine, query, parsed));
    parsed.unwrap()
}

/// Compiles an SQL query to IR plan.
pub fn sql_to_ir<E: QueryEngine>(engine: &E, query: &str, params: Vec<E::Value>) -> (plan: E::Plan)
    requires
        is_correct(engine, query, params),
    ensures
        is_ir(engine, query, params, plan),
{
    let parsed = sql_to_ir_without_bind(engine, query);
    let bound = engine.bind_params(parsed, params);
    assert(binds_to(engine, parsed, params, bound));
    let bound = bound.unwrap();
    let configured = engine.apply_options(bound);
    assert(configures_to(engine, bound, configured));
    configured.unwrap()
}

/// Compiles an SQL query to optimized IR plan.
pub fn sql_to_optimized_ir<E: QueryEngine>(
    engine: &E,
    query: &str,
    params: Vec<E::Value>,
) -> (plan: E::Plan)
    requires
        is_correct(engine, query, params),
        forall|ir: E::Plan, r: Result<E::Plan, E::Error>|
            is_ir(engine, query, params, ir) && #[trigger] optimizes_to(engine, ir, r) ==> r is Ok,
    ensures
        exists|ir: E::Plan|
            is_ir(engine, query, params, ir) && #[trigger] optimizes_to(engine, ir, Ok(plan)),
{
    let ir = sql_to_ir(engine, query, params);
    let optimized = engine.optimize(ir);
    assert(optimizes_to(engine, ir, optimized));
    optimized.unwrap()
}

/// `sql` is what the transformed query is written as.
pub open spec fn transforms_to<E: QueryEngine, F: Fn(E::Plan) -> E::Plan>(
    engine: &E,
    query: &str,
    params: Vec<E::Value>,
    f_transform: F,
    sql: E::Sql,
) -> bool {
    exists|ir: E::Plan, plan: E::Plan|
        {
            &&& is_ir(engine, query, params, ir)
            &&& #[trigger] call_ensures(f_transform, (ir,), plan)
            &&& is_written(engine, plan, sql)
        }
}

/// Compiles and transforms an SQL query to a new parameterized SQL. Whether an engine writes a
/// plan in one way only is not said.
pub fn check_transformation<E: QueryEngine, F: Fn(E::Plan) -> E::Plan>(
    engine: &E,
    query: &str,
    params: Vec<E::Value>,
    f_transform: F,
) -> (sql: E::Sql)
    requires
        is_correct(engine, query, params),
        forall|ir: E::Plan|
            is_ir(engine, query, params, ir) ==> #[trigger] call_requires(f_transform, (ir,)),
        forall|ir: E::Plan, plan: E::Plan|
            is_ir(engine, query, params, ir) && #[trigger] call_ensures(f_transform, (ir,), plan)
                ==> is_writable(engine, plan),
    ensures
        transforms_to(engine, query, params, f_transform, sql),
{
    let ir = sql_to_ir(engine, query, params);
    let plan = f_transform(ir);
    let ex_plan = engine.execution_plan(plan);
    assert(executes_as(engine, plan, ex_plan));
    let top = engine.get_top(&ex_plan);
    assert(has_top(engine, ex_plan, top));
    let top_id = top.unwrap();
    let tree = engine.syntax_plan(&ex_plan, top_id, Snapshot::Latest);
    assert(has_syntax(engine, ex_plan, top_id, tree));
    let sp = tree.unwrap();
    let ordered = engine.ordered_nodes(sp);
    assert(orders_to(engine, sp, ordered));
    let ordered = ordered.unwrap();
    let nodes = engine.to_syntax_data(&ordered);
    assert(holds_data(engine, ordered, nodes));
    let nodes = nodes.unwrap();
    let written = engine.to_sql(&ex_plan, &nodes, "", None);
    assert(writes_to(engine, ex_plan, nodes, written));
    let (sql, _) = written.unwrap();
    assert(is_written(engine, plan, sql));
    sql
}

/// The transformation can leave `plan` of the query.
pub open spec fn can_leave<E: QueryEngine, F: Fn(E::Plan) -> E::Plan>(
    engine: &E,
    query: &str,
    params: Vec<E::Value>,
    f_transform: F,
    plan: E::Plan,
) -> bool {
    exists|ir: E::Plan|
        is_ir(engine, query, params, ir) && #[trigger] call_ensures(f_transform, (ir,), plan)
}

/// `plan` is all that the transformation leaves of the query.
pub open spec fn leaves<E: QueryEngine, F: Fn(E::Plan) -> E::Plan>(
    engine: &E,
    query: &str,
    params: Vec<E::Value>,
    f_transform: F,
    plan: E::Plan,
) -> bool {
    &&& can_leave(engine, query, params, f_transform, plan)
    &&& forall|ir: E::Plan, left: E::Plan|
        is_ir(engine, query, params, ir) && #[trigger] call_ensures(f_transform, (ir,), left)
            ==> left == plan
}

/// Of every engine: the SQL is that of the plan which the transformation leaves. What a query
/// comes to is what this plan is written as, no more and no less.
pub proof fn law_sql_is_that_of_the_plan_left<E: QueryEngine, F: Fn(E::Plan) -> E::Plan>(
    engine: &E,
    query: &str,
    params: Vec<E::Value>,
    f_transform: F,
    plan: E::Plan,
    sql: E::Sql,
)
    requires
        leaves(engine, query, params, f_transform, plan),
    ensures
        transforms_to(engine, query, params, f_transform, sql) <==> is_written(engine, plan, sql),
{
}

/// Of every engine: queries, parameters and transformations that leave the same plan come to
/// the same SQL, so that any SQL that one of them can come to, the other can.
pub proof fn law_same_plan_comes_to_the_same_sql<
    E: QueryEngine,
    F: Fn(E::Plan) -> E::Plan,
    G: Fn(E::Plan) -> E::Plan,
>(
    engine: &E,
    query: &str,
    params: Vec<E::Value>,
    f_transform: F,
    other_query: &str,
    other_params: Vec<E::Value>,
    other_transform: G,
    plan: E::Plan,
    sql: E::Sql,
)
    requires
        leaves(engine, query, params, f_transform, plan),
        leaves(engine, other_query, other_params, other_transform, plan),
    ensures
        transforms_to(engine, query, params, f_transform, sql) <==> transforms_to(
            engine,
            other_query,
            other_params,
            other_transform,
            sql,
        ),
{
    law_sql_is_that_of_the_plan_left(engine, query, params, f_transform, plan, sql);
    law_sql_is_that_of_the_plan_left(
        engine,
        other_query,
        other_params,
        other_transform,
        plan,
        sql,
    );
}

/// Each stage of writing a plan has one result.
pub open spec fn writes_one_way<E: QueryEngine>(engine: &E) -> bool {
    &&& forall|plan: E::Plan, a: E::ExecutionPlan, b: E::ExecutionPlan| #[trigger]
        executes_as(engine, plan, a) && #[trigger] executes_as(engine, plan, b) ==> a == b
    &&& forall|
        plan: E::ExecutionPlan,
        a: Result<E::NodeId, E::Error>,
        b: Result<E::NodeId, E::Error>,
    | #[trigger]
        has_top(engine, plan, a) && #[trigger] has_top(engine, plan, b) ==> a == b
    &&& forall|
        plan: E::ExecutionPlan,
        top: E::NodeId,
        a: Result<E::SyntaxPlan, E::Error>,
        b: Result<E::SyntaxPlan, E::Error>,
    | #[trigger]
        has_syntax(engine, plan, top, a) && #[trigger] has_syntax(engine, plan, top, b) ==> a == b
    &&& forall|
        tree: E::SyntaxPlan,
        a: Result<E::OrderedNodes, E::Error>,
        b: Result<E::OrderedNodes, E::Error>,
    | #[trigger]
        orders_to(engine, tree, a) && #[trigger] orders_to(engine, tree, b) ==> a == b
    &&& forall|
        nodes: E::OrderedNodes,
        a: Result<E::SyntaxData, E::Error>,
        b: Result<E::SyntaxData, E::Error>,
    | #[trigger]
        holds_data(engine, nodes, a) && #[trigger] holds_data(engine, nodes, b) ==> a == b
    &&& forall|
        plan: E::ExecutionPlan,
        nodes: E::SyntaxData,
        a: Result<(E::Sql, E::Attachment), E::Error>,
        b: Result<(E::Sql, E::Attachment), E::Error>,
    | #[trigger]
        writes_to(engine, plan, nodes, a) && #[trigger] writes_to(engine, plan, nodes, b) ==> a == b
}

/// Where each stage of writing has one result, a plan is written as one query.
pub proof fn law_plan_is_written_in_one_way<E: QueryEngine>(
    engine: &E,
    plan: E::Plan,
    a: E::Sql,
    b: E::Sql,
)
    requires
        writes_one_way(engine),
        is_written(engine, plan, a),
        is_written(engine, plan, b),
    ensures
        a == b,
{
}

/// The SQL depends on the plan that the transformation leaves and on nothing else: where each
/// stage of writing has one result, queries that leave the same plan come to one and the same
/// SQL, whatever the queries, the parameters and the transformations are.
pub proof fn law_sql_depends_on_the_plan_left_alone<
    E: QueryEngine,
    F: Fn(E::Plan) -> E::Plan,
    G: Fn(E::Plan) -> E::Plan,
>(
    engine: &E,
    query: &str,
    params: Vec<E::Value>,
    f_transform: F,
    other_query: &str,
    other_params: Vec<E::Value>,
    other_transform: G,
    plan: E::Plan,
    sql: E::Sql,
    other_sql: E::Sql,
)
    requires
        writes_one_way(engine),
        leaves(engine, query, params, f_transform, plan),
        leaves(engine, other_query, other_params, other_transform, plan),
        transforms_to(engine, query, params, f_transform, sql),
        transforms_to(engine, other_query, other_params, other_transform, other_sql),
    ensures
        sql == other_sql,
{
    law_sql_is_that_of_the_plan_left(engine, query, params, f_transform, plan, sql);
    law_sql_is_that_of_the_plan_left(
        engine,
        other_query,
        other_params,
        other_transform,
        plan,
        other_sql,
    );
    law_plan_is_written_in_one_way(engine, plan, sql, other_sql);
}

/// A query goes through the stages of the engine one after the other, each working on what the
/// one before it gave: parsing, binding the parameters, applying the options, and where it is
/// asked for, optimizing.
pub proof fn law_query_goes_through_the_stages<E: QueryEngine>(
    engine: &E,
    query: &str,
    params: Vec<E::Value>,
    unbound: E::Plan,
    ir: E::Plan,
    optimized: E::Plan,
)
    requires
        call_ensures(sql_to_ir_without_bind::<E>, (engine, query), unbound),
        call_ensures(sql_to_ir::<E>, (engine, query, params), ir),
        call_ensures(sql_to_optimized_ir::<E>, (engine, query, params), optimized),
    ensures
        call_ensures(E::transform_into_plan, (engine, query), Ok(unbound)),
        exists|parsed: E::Plan, bound: E::Plan|
            {
                &&& #[trigger] call_ensures(E::transform_into_plan, (engine, query), Ok(parsed))
                &&& #[trigger] call_ensures(E::bind_params, (engine, parsed, params), Ok(bound))
                &&& call_ensures(E::apply_options, (engine, bound), Ok(ir))
            },
        exists|parsed: E::Plan, bound: E::Plan, plain: E::Plan|
            {
                &&& #[trigger] call_ensures(E::transform_into_plan, (engine, query), Ok(parsed))
                &&& #[trigger] call_ensures(E::bind_params, (engine, parsed, params), Ok(bound))
                &&& #[trigger] call_ensures(E::apply_options, (engine, bound), Ok(plain))
                &&& call_ensures(E::optimize, (engine, plain), Ok(optimized))
            },
{
    let plain = choose|plain: E::Plan|
        is_ir(engine, query, params, plain) && #[trigger] optimizes_to(
            engine,
            plain,
            Ok(optimized),
        );
    let (parsed, bound) = choose|parsed: E::Plan, bound: E::Plan|
        {
            &&& parses_to(engine, query, Ok(parsed))
            &&& #[trigger] binds_to(engine, parsed, params, Ok(bound))
            &&& #[trigger] configures_to(engine, bound, Ok(plain))
        };
    assert(call_ensures(E::transform_into_plan, (engine, query), Ok(parsed)));
    assert(call_ensures(E::bind_params, (engine, parsed, params), Ok(bound)));
    assert(call_ensures(E::apply_options, (engine, bound), Ok(plain)));
}

/// A transformed query is written from the plan that the transformation made of its bound plan:
/// made ready for execution, its latest tree from the top node down, in order, under no name of
/// its own and with no options.
pub proof fn law_transformed_query_is_written_from_the_top<
    E: QueryEngine,
    F: Fn(E::Plan) -> E::Plan,
>(engine: &E, query: &str, params: Vec<E::Value>, f_transform: F, sql: E::Sql)
    requires
        call_ensures(check_transformation::<E, F>, (engine, query, params, f_transform), sql),
    ensures
        exists|
            ir: E::Plan,
            plan: E::Plan,
            executed: E::ExecutionPlan,
            top: E::NodeId,
            tree: E::SyntaxPlan,
            ordered: E::OrderedNodes,
            nodes: E::SyntaxData,
            attachment: E::Attachment,
        |
            {
                &&& is_ir(engine, query, params, ir)
                &&& #[trigger] call_ensures(f_transform, (ir,), plan)
                &&& #[trigger] call_ensures(E::execution_plan, (engine, plan), executed)
                &&& #[trigger] call_ensures(E::get_top, (engine, &executed), Ok(top))
                &&& #[trigger] call_ensures(
                    E::syntax_plan,
                    (engine, &executed, top, Snapshot::Latest),
                    Ok(tree),
                )
                &&& #[trigger] call_ensures(E::ordered_nodes, (engine, tree), Ok(ordered))
                &&& #[trigger] call_ensures(E::to_syntax_data, (engine, &ordered), Ok(nodes))
                &&& #[trigger] call_ensures(
                    E::to_sql,
                    (engine, &executed, &nodes, "", None::<E::SqlOptions>),
                    Ok((sql, attachment)),
                )
            },
{
    let (ir, plan) = choose|ir: E::Plan, plan: E::Plan|
        {
            &&& is_ir(engine, query, params, ir)
            &&& #[trigger] call_ensures(f_transform, (ir,), plan)
            &&& is_written(engine, plan, sql)
        };
    let (executed, top, tree, ordered, nodes, attachment) = choose|
        executed: E::ExecutionPlan,
        top: E::NodeId,
        tree: E::SyntaxPlan,
        ordered: E::OrderedNodes,
        nodes: E::SyntaxData,
        attachment: E::Attachment,
    |
        {
            &&& #[trigger] executes_as(engine, plan, executed)
            &&& #[trigger] has_top(engine, executed, Ok(top))
            &&& #[trigger] has_syntax(engine, executed, top, Ok(tree))
            &&& #[trigger] orders_to(engine, tree, Ok(ordered))
            &&& #[trigger] holds_data(engine, ordered, Ok(nodes))
            &&& #[trigger] writes_to(engine, executed, nodes, Ok((sql, attachment)))
        };
    assert(call_ensures(f_transform, (ir,), plan));
    assert(call_ensures(E::execution_plan, (engine, plan), executed));
    assert(call_ensures(E::get_top, (engine, &executed), Ok(top)));
    assert(call_ensures(E::syntax_plan, (engine, &executed, top, Snapshot::Latest), Ok(tree)));
    assert(call_ensures(E::ordered_nodes, (engine, tree), Ok(ordered)));
    assert(call_ensures(E::to_syntax_data, (engine, &ordered), Ok(nodes)));
    assert(call_ensures(
        E::to_sql,
        (engine, &executed, &nodes, "", None::<E::SqlOptions>),
        Ok((sql, attachment)),
    ));
}

} // verus!
