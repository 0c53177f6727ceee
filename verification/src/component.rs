//! Generic entity queries: filters that build the SQL `WHERE` clause of a
//! listing, with its positional parameters and paging limits, and the SQL
//! text of the create, get, update, delete and list queries.

use vstd::prelude::*;
use crate::ident::{EntityId, Timestamp};
use crate::codes::signed_decimal;
use crate::text::{owned, push_str, decimal_text, u64_to_string};

verus! {

/// A positional SQL parameter of a query.
///
/// A JSON value is held as the text of the JSON document; a timestamp as
/// milliseconds since the epoch.
#[derive(Debug, Clone, PartialEq)]
pub enum SqlParam {
    Uuid(EntityId),
    String(String),
    OptString(Option<String>),
    Int(i32),
    OptInt(Option<i32>),
    Long(i64),
    OptLong(Option<i64>),
    Bool(bool),
    OptBool(Option<bool>),
    Json(String),
    OptJson(Option<String>),
    Timestamp(Timestamp),
    OptTimestamp(Option<Timestamp>),
    Bytes(Vec<u8>),
    OptBytes(Option<Vec<u8>>),
    OptUuid(Option<EntityId>),
}

/// What a parameter holds, with texts and byte strings by their views.
pub enum ParamV {
    Uuid(EntityId),
    Text(Seq<char>),
    OptText(Option<Seq<char>>),
    Int(i32),
    OptInt(Option<i32>),
    Long(i64),
    OptLong(Option<i64>),
    Bool(bool),
    OptBool(Option<bool>),
    Json(Seq<char>),
    OptJson(Option<Seq<char>>),
    Timestamp(Timestamp),
    OptTimestamp(Option<Timestamp>),
    Bytes(Seq<u8>),
    OptBytes(Option<Seq<u8>>),
    OptUuid(Option<EntityId>),
}

/// A UUID parameter.
pub open spec fn uuid_v(id: EntityId) -> ParamV {
    ParamV::Uuid(id)
}

/// A text parameter.
pub open spec fn text_v(t: Seq<char>) -> ParamV {
    ParamV::Text(t)
}

/// A boolean parameter.
pub open spec fn bool_v(b: bool) -> ParamV {
    ParamV::Bool(b)
}

/// A JSON parameter, by the text of the document.
pub open spec fn json_v(t: Seq<char>) -> ParamV {
    ParamV::Json(t)
}

/// What a parameter holds.
pub open spec fn param_view(p: SqlParam) -> ParamV {
    match p {
        SqlParam::Uuid(id) => ParamV::Uuid(id),
        SqlParam::String(s) => ParamV::Text(s@),
        SqlParam::OptString(s) => ParamV::OptText(opt_view(s)),
        SqlParam::Int(n) => ParamV::Int(n),
        SqlParam::OptInt(n) => ParamV::OptInt(n),
        SqlParam::Long(n) => ParamV::Long(n),
        SqlParam::OptLong(n) => ParamV::OptLong(n),
        SqlParam::Bool(b) => ParamV::Bool(b),
        SqlParam::OptBool(b) => ParamV::OptBool(b),
        SqlParam::Json(t) => ParamV::Json(t@),
        SqlParam::OptJson(t) => ParamV::OptJson(opt_view(t)),
        SqlParam::Timestamp(t) => ParamV::Timestamp(t),
        SqlParam::OptTimestamp(t) => ParamV::OptTimestamp(t),
        SqlParam::Bytes(b) => ParamV::Bytes(b@),
        SqlParam::OptBytes(b) => ParamV::OptBytes(match b {
            Some(v) => Some(v@),
            None => None,
        }),
        SqlParam::OptUuid(id) => ParamV::OptUuid(id),
    }
}

/// What a list of parameters holds.
pub open spec fn params_view(ps: Seq<SqlParam>) -> Seq<ParamV> {
    ps.map_values(|p: SqlParam| param_view(p))
}

/// One condition of a filter: the text before the parameter's placeholder,
/// the text after it, and the parameter (none for a condition that takes no
/// parameter, whose text is then the two texts joined).
pub type Step = (Seq<char>, Seq<char>, Option<ParamV>);

/// How many of the conditions take a parameter.
pub open spec fn params_in(steps: Seq<Step>) -> nat
    decreases steps.len(),
{
    if steps.len() == 0 {
        0
    } else {
        params_in(steps.drop_last()) + if steps.last().2 is Some { 1nat } else { 0nat }
    }
}

/// The text of a condition whose parameter, if it takes one, is `$n`.
pub open spec fn render(step: Step, n: nat) -> Seq<char> {
    if step.2 is Some { placeholder(step.0, n, step.1) } else { step.0 + step.1 }
}

/// The texts of the conditions, their parameters numbered `$1`, `$2`, ... in order.
pub open spec fn numbered(steps: Seq<Step>) -> Seq<Seq<char>>
    decreases steps.len(),
{
    if steps.len() == 0 {
        Seq::empty()
    } else {
        numbered(steps.drop_last()).push(render(steps.last(), params_in(steps.drop_last()) + 1))
    }
}

/// The parameters of the conditions, in order.
pub open spec fn step_params(steps: Seq<Step>) -> Seq<ParamV>
    decreases steps.len(),
{
    if steps.len() == 0 {
        Seq::empty()
    } else {
        match steps.last().2 {
            Some(v) => step_params(steps.drop_last()).push(v),
            None => step_params(steps.drop_last()),
        }
    }
}

/// There are as many parameters as conditions that take one, and no more
/// than there are conditions.
pub proof fn lemma_params_count(steps: Seq<Step>)
    ensures
        step_params(steps).len() == params_in(steps),
        params_in(steps) <= steps.len(),
    decreases steps.len(),
{
    if steps.len() > 0 {
        lemma_params_count(steps.drop_last());
    }
}

/// Among `conditions` is `prefix$k suffix` for some `k` whose parameter,
/// the `k`-th of `params`, is `v`.
pub open spec fn has_condition(
    conditions: Seq<Seq<char>>,
    params: Seq<ParamV>,
    prefix: Seq<char>,
    suffix: Seq<char>,
    v: ParamV,
) -> bool {
    exists|i: int|
        0 <= i < params.len() && #[trigger] params[i] == v
            && conditions.contains(prefix + "$"@ + decimal_text((i + 1) as nat) + suffix)
}

/// The `n` characters of `c` from position `off`.
pub open spec fn text_at(c: Seq<char>, off: int, n: int) -> Seq<char> {
    c.subrange(off, off + n)
}

/// `t` occurs in `c`.
pub open spec fn occurs_in(c: Seq<char>, t: Seq<char>) -> bool {
    exists|off: int| 0 <= off && off + t.len() <= c.len() && #[trigger] text_at(c, off, t.len() as int) == t
}

/// There is a WHERE clause, and it holds `prefix$k suffix` for some `k`
/// whose parameter, the `k`-th of `params`, is `v`.
pub open spec fn clause_filters_on(
    clause: Option<Seq<char>>,
    params: Seq<ParamV>,
    prefix: Seq<char>,
    suffix: Seq<char>,
    v: ParamV,
) -> bool {
    exists|i: int|
        0 <= i < params.len() && #[trigger] params[i] == v && (clause matches Some(c)
            && occurs_in(c, prefix + "$"@ + decimal_text((i + 1) as nat) + suffix))
}

/// Each condition occurs in the WHERE clause built from them.
pub proof fn lemma_conditions_in_clause(conditions: Seq<Seq<char>>)
    ensures
        forall|j: int| 0 <= j < conditions.len() ==> occurs_in(joined(conditions), #[trigger] conditions[j]),
    decreases conditions.len(),
{
    if conditions.len() == 1 {
        let c = conditions[0];
        assert(text_at(joined(conditions), 0, c.len() as int) =~= c);
    } else if conditions.len() > 1 {
        let prev = conditions.drop_last();
        lemma_conditions_in_clause(prev);
        let head = joined(prev) + " AND "@;
        let all = joined(conditions);
        assert(all == head + conditions.last());
        assert forall|j: int| 0 <= j < conditions.len() implies occurs_in(all, #[trigger] conditions[j]) by {
            let t = conditions[j];
            if j == conditions.len() - 1 {
                assert(text_at(all, head.len() as int, t.len() as int) =~= t);
            } else {
                assert(prev[j] == t);
                let off = choose|off: int| 0 <= off && off + t.len() <= joined(prev).len()
                    && #[trigger] text_at(joined(prev), off, t.len() as int) == t;
                assert(text_at(all, off, t.len() as int) =~= text_at(joined(prev), off, t.len() as int));
            }
        }
    }
}

/// A condition among those a clause is built from, with its parameter, is
/// in the clause.
pub proof fn lemma_condition_in_clause(conditions: Seq<Seq<char>>, params: Seq<ParamV>)
    ensures
        forall|prefix: Seq<char>, suffix: Seq<char>, v: ParamV|
            #[trigger] has_condition(conditions, params, prefix, suffix, v)
                ==> clause_filters_on(where_clause(conditions), params, prefix, suffix, v),
{
    lemma_conditions_in_clause(conditions);
    assert forall|prefix: Seq<char>, suffix: Seq<char>, v: ParamV|
        #[trigger] has_condition(conditions, params, prefix, suffix, v)
            implies clause_filters_on(where_clause(conditions), params, prefix, suffix, v) by {
        let i = choose|i: int|
            0 <= i < params.len() && #[trigger] params[i] == v
                && conditions.contains(prefix + "$"@ + decimal_text((i + 1) as nat) + suffix);
        let t = prefix + "$"@ + decimal_text((i + 1) as nat) + suffix;
        let j = choose|j: int| 0 <= j < conditions.len() && conditions[j] == t;
        assert(occurs_in(joined(conditions), conditions[j]));
    }
}

/// 1 where the option is present, else 0.
pub open spec fn present<T>(o: Option<T>) -> int {
    if o is Some { 1 } else { 0 }
}

/// 1 where the flag is `Some(true)`, else 0.
pub open spec fn flag_set(o: Option<bool>) -> int {
    if o == Some(true) { 1 } else { 0 }
}

/// Adding a condition adds one parameter where it takes one.
pub proof fn lemma_push_step()
    ensures
        forall|steps: Seq<Step>, step: Step| #[trigger] params_in(steps.push(step))
            == params_in(steps) + (if step.2 is Some { 1int } else { 0int }),
{
    assert forall|steps: Seq<Step>, step: Step| #[trigger] params_in(steps.push(step))
        == params_in(steps) + (if step.2 is Some { 1int } else { 0int }) by {
        assert(steps.push(step).drop_last() =~= steps);
    }
}

/// There is one text per condition, and one parameter per condition that
/// takes one.
pub proof fn lemma_numbered_len(steps: Seq<Step>)
    ensures
        numbered(steps).len() == steps.len(),
        step_params(steps).len() == params_in(steps),
    decreases steps.len(),
{
    lemma_params_count(steps);
    if steps.len() > 0 {
        lemma_numbered_len(steps.drop_last());
    }
}

/// Every condition with a parameter `v` is rendered `prefix$k suffix`, `v`
/// being the `k`-th parameter; every condition without one is rendered as
/// its text.
pub proof fn lemma_steps_rendered(steps: Seq<Step>)
    ensures
        forall|st: Step| #[trigger] steps.contains(st) && st.2 is Some
            ==> has_condition(numbered(steps), step_params(steps), st.0, st.1, st.2.unwrap()),
        forall|st: Step| #[trigger] steps.contains(st) && st.2 is None
            ==> numbered(steps).contains(st.0 + st.1),
    decreases steps.len(),
{
    if steps.len() > 0 {
        let prev = steps.drop_last();
        let last = steps.last();
        lemma_steps_rendered(prev);
        lemma_params_count(prev);
        assert(steps =~= prev.push(last));
        let texts = numbered(steps);
        let params = step_params(steps);
        assert(texts =~= numbered(prev).push(render(last, params_in(prev) + 1)));
        assert forall|st: Step| #[trigger] steps.contains(st) && st.2 is Some
            implies has_condition(texts, params, st.0, st.1, st.2.unwrap()) by {
            if st == last {
                let i = params_in(prev) as int;
                assert(params[i] == st.2.unwrap());
                assert(texts[texts.len() - 1] == st.0 + "$"@ + decimal_text((i + 1) as nat) + st.1);
            } else {
                let k = choose|k: int| 0 <= k < steps.len() && steps[k] == st;
                assert(prev[k] == st);
                assert(prev.contains(st));
                let i = choose|i: int|
                    0 <= i < step_params(prev).len() && #[trigger] step_params(prev)[i] == st.2.unwrap()
                        && numbered(prev).contains(st.0 + "$"@ + decimal_text((i + 1) as nat) + st.1);
                let j = choose|j: int| 0 <= j < numbered(prev).len()
                    && numbered(prev)[j] == st.0 + "$"@ + decimal_text((i + 1) as nat) + st.1;
                assert(texts[j] == numbered(prev)[j]);
                assert(params[i] == step_params(prev)[i]);
            }
        }
        assert forall|st: Step| #[trigger] steps.contains(st) && st.2 is None
            implies texts.contains(st.0 + st.1) by {
            if st == last {
                assert(texts[texts.len() - 1] == st.0 + st.1);
            } else {
                let k = choose|k: int| 0 <= k < steps.len() && steps[k] == st;
                assert(prev[k] == st);
                assert(prev.contains(st));
                let j = choose|j: int| 0 <= j < numbered(prev).len() && numbered(prev)[j] == st.0 + st.1;
                assert(texts[j] == numbered(prev)[j]);
            }
        }
    }
}

/// The view of an optional string.
pub open spec fn opt_view(s: Option<String>) -> Option<Seq<char>> {
    match s {
        Some(t) => Some(t@),
        None => None,
    }
}

/// Builds the conditions and parameters of a filter, numbering the
/// placeholders in the order the conditions are added.
pub struct WhereBuilder {
    conditions: Vec<String>,
    params: Vec<SqlParam>,
    steps: Ghost<Seq<Step>>,
}

impl WhereBuilder {
    /// The conditions added so far.
    pub closed spec fn steps(&self) -> Seq<Step> {
        self.steps@
    }

    /// The builder holds the texts and parameters of its conditions.
    pub closed spec fn wf(&self) -> bool {
        &&& texts(self.conditions@) == numbered(self.steps@)
        &&& params_view(self.params@) == step_params(self.steps@)
    }

    /// A builder with no conditions.
    pub fn new() -> (b: Self)
        ensures
            b.wf(),
            b.steps() == Seq::<Step>::empty(),
    {
        let b = WhereBuilder { conditions: Vec::new(), params: Vec::new(), steps: Ghost(Seq::empty()) };
        assert(texts(b.conditions@) =~= numbered(b.steps@));
        assert(params_view(b.params@) =~= step_params(b.steps@));
        b
    }

    /// Add the condition `prefix$n suffix` with its parameter, `n` being its
    /// parameter's position.
    pub fn add(&mut self, prefix: &str, suffix: &str, param: SqlParam)
        requires
            old(self).wf(),
            old(self).steps().len() < usize::MAX,
        ensures
            final(self).wf(),
            final(self).steps() == old(self).steps().push((prefix@, suffix@, Some(param_view(param)))),
    {
        proof { lemma_params_count(self.steps@); }
        let n = self.params.len() as u64 + 1;
        let ghost v = param_view(param);
        self.conditions.push(placeholder_text(prefix, n, suffix));
        self.params.push(param);
        let ghost old_steps = self.steps@;
        self.steps = Ghost(old_steps.push((prefix@, suffix@, Some(v))));
        proof {
            assert(self.steps@.drop_last() =~= old_steps);
            assert(texts(self.conditions@) =~= numbered(self.steps@));
            assert(params_view(self.params@) =~= step_params(self.steps@));
        }
    }

    /// Add the condition `column_eq$n` with its parameter.
    pub fn add_eq(&mut self, column_eq: &str, param: SqlParam)
        requires
            old(self).wf(),
            old(self).steps().len() < usize::MAX,
        ensures
            final(self).wf(),
            final(self).steps() == old(self).steps().push((column_eq@, Seq::<char>::empty(), Some(param_view(param)))),
    {
        proof { reveal_strlit(""); }
        assert(""@ =~= Seq::<char>::empty());
        self.add(column_eq, "", param);
    }

    /// Add a condition that takes no parameter.
    pub fn add_plain(&mut self, condition: &str)
        requires
            old(self).wf(),
        ensures
            final(self).wf(),
            final(self).steps() == old(self).steps().push((condition@, Seq::<char>::empty(), None::<ParamV>)),
    {
        self.conditions.push(owned(condition));
        let ghost old_steps = self.steps@;
        self.steps = Ghost(old_steps.push((condition@, Seq::<char>::empty(), None::<ParamV>)));
        proof {
            assert(self.steps@.drop_last() =~= old_steps);
            assert(condition@ + Seq::<char>::empty() =~= condition@);
            assert(texts(self.conditions@) =~= numbered(self.steps@));
            assert(params_view(self.params@) =~= step_params(self.steps@));
        }
    }

    /// The conditions joined with ` AND ` (none where there are none), and
    /// the parameters.
    pub fn finish(self) -> (r: (Option<String>, Vec<SqlParam>))
        requires
            self.wf(),
        ensures
            opt_view(r.0) == where_clause(numbered(self.steps())),
            params_view(r.1@) == step_params(self.steps()),
    {
        let w = join_conditions(&self.conditions);
        (w, self.params)
    }
}

/// Trait for list query filters.
pub trait ListFilter {
    /// Build the conditions (without the `WHERE` keyword, `None` where there
    /// are none) and the parameters they refer to as `$1`, `$2`, ...
    fn build_where(&self, tenant_id: EntityId) -> (Option<String>, Vec<SqlParam>);

    /// The limit for this query (default: 100).
    fn limit(&self) -> i32 {
        100
    }

    /// The offset for this query (default: 0).
    fn offset(&self) -> i32 {
        0
    }
}

/// Marker for components that require tenant isolation.
pub trait TenantScoped {}

/// Marker for components that support list operations.
pub trait Listable {}

/// Empty filter that returns all entities (with tenant isolation).
#[derive(Debug, Clone, Default)]
pub struct NoFilter {
    pub limit: Option<i32>,
    pub offset: Option<i32>,
}

impl ListFilter for NoFilter {
    fn build_where(&self, tenant_id: EntityId) -> (r: (Option<String>, Vec<SqlParam>))
        ensures
            r.0 is None,
            r.1@.len() == 0,
    {
        (None, Vec::new())
    }

    fn limit(&self) -> (n: i32)
        ensures
            n == self.limit.unwrap_or(100),
    {
        match self.limit {
            Some(n) => n,
            None => 100,
        }
    }

    fn offset(&self) -> (n: i32)
        ensures
            n == self.offset.unwrap_or(0),
    {
        match self.offset {
            Some(n) => n,
            None => 0,
        }
    }
}

/// The conditions joined with ` AND `.
pub open spec fn joined(conditions: Seq<Seq<char>>) -> Seq<char>
    decreases conditions.len(),
{
    if conditions.len() == 0 {
        Seq::empty()
    } else if conditions.len() == 1 {
        conditions[0]
    } else {
        joined(conditions.drop_last()) + " AND "@ + conditions.last()
    }
}

/// The views of a sequence of strings.
pub open spec fn texts(v: Seq<String>) -> Seq<Seq<char>> {
    v.map_values(|s: String| s@)
}

/// The WHERE clause for these conditions: none where there are none.
pub open spec fn where_clause(conditions: Seq<Seq<char>>) -> Option<Seq<char>> {
    if conditions.len() == 0 { None } else { Some(joined(conditions)) }
}

/// Join the conditions into a WHERE clause.
pub fn join_conditions(conditions: &Vec<String>) -> (r: Option<String>)
    ensures
        r matches Some(s) ==> where_clause(texts(conditions@)) == Some(s@),
        r is None <==> where_clause(texts(conditions@)) is None,
{
    if conditions.len() == 0 {
        return None;
    }
    let mut s = owned(conditions[0].as_str());
    let mut i: usize = 1;
    assert(texts(conditions@).take(1) =~= seq![conditions@[0]@]);
    while i < conditions.len()
        invariant
            1 <= i <= conditions@.len(),
            s@ == joined(texts(conditions@).take(i as int)),
        decreases conditions@.len() - i,
    {
        push_str(&mut s, " AND ");
        push_str(&mut s, conditions[i].as_str());
        assert(texts(conditions@).take(i + 1).drop_last() =~= texts(conditions@).take(i as int));
        i = i + 1;
    }
    assert(texts(conditions@).take(conditions@.len() as int) =~= texts(conditions@));
    Some(s)
}

/// A condition comparing a column with the `$n` parameter: `column`, the
/// operator text `op`, `$` and `n`.
pub open spec fn placeholder(prefix: Seq<char>, n: nat, suffix: Seq<char>) -> Seq<char> {
    prefix + "$"@ + decimal_text(n) + suffix
}

/// Build `prefix$n suffix`.
pub fn placeholder_text(prefix: &str, n: u64, suffix: &str) -> (s: String)
    ensures
        s@ == placeholder(prefix@, n as nat, suffix@),
{
    let mut s = owned(prefix);
    push_str(&mut s, "$");
    let digits = u64_to_string(n);
    push_str(&mut s, digits.as_str());
    push_str(&mut s, suffix);
    s
}

/// The name of the stored procedure for an operation on an entity.
pub open spec fn sql_function_name(entity_name: Seq<char>, operation: Seq<char>) -> Seq<char> {
    "caliber_"@ + entity_name + "_"@ + operation
}

/// The name of the stored procedure for an operation on an entity:
/// `caliber_{entity}_{operation}`.
pub fn sql_function(entity_name: &str, operation: &str) -> (s: String)
    ensures
        s@ == sql_function_name(entity_name@, operation@),
{
    let mut s = owned("caliber_");
    push_str(&mut s, entity_name);
    push_str(&mut s, "_");
    push_str(&mut s, operation);
    s
}

/// The placeholders after the first of `n` parameters: `, $2, $3, ..., $n`.
pub open spec fn more_placeholders(n: nat) -> Seq<char>
    decreases n,
{
    if n <= 1 {
        Seq::empty()
    } else {
        more_placeholders((n - 1) as nat) + ", $"@ + decimal_text(n)
    }
}

/// The query that creates an entity through its stored procedure with
/// `param_count` parameters, returning the new row as JSON. The first
/// placeholder is written even where there are no parameters.
pub fn create_query(entity_name: &str, param_count: usize) -> (q: String)
    ensures
        q@ == "SELECT row_to_json(t.*) FROM "@ + sql_function_name(entity_name@, "create"@) + "($1"@
            + more_placeholders(param_count as nat) + ") AS t"@,
{
    let mut q = owned("SELECT row_to_json(t.*) FROM ");
    let f = sql_function(entity_name, "create");
    push_str(&mut q, f.as_str());
    push_str(&mut q, "($1");
    let ghost head = q@;
    assert(more_placeholders(1) =~= Seq::<char>::empty());
    let mut k: usize = 1;
    while k < param_count
        invariant
            1 <= k,
            k <= param_count || param_count < 1,
            param_count < 1 ==> k == 1,
            q@ == head + more_placeholders(k as nat),
        decreases param_count - k,
    {
        push_str(&mut q, ", $");
        let digits = u64_to_string((k + 1) as u64);
        push_str(&mut q, digits.as_str());
        k = k + 1;
    }
    assert(more_placeholders(k as nat) == more_placeholders(param_count as nat)) by {
        if param_count < 1 {
            assert(more_placeholders(0) =~= Seq::<char>::empty());
        }
    }
    push_str(&mut q, ") AS t");
    q
}

/// The query that reads one entity by its ID and tenant.
pub fn get_query(entity_name: &str) -> (q: String)
    ensures
        q@ == "SELECT row_to_json(t.*) FROM "@ + sql_function_name(entity_name@, "get"@) + "($1, $2) AS t"@,
{
    let mut q = owned("SELECT row_to_json(t.*) FROM ");
    let f = sql_function(entity_name, "get");
    push_str(&mut q, f.as_str());
    push_str(&mut q, "($1, $2) AS t");
    q
}

/// The query that applies an update document to one entity.
pub fn update_query(entity_name: &str) -> (q: String)
    ensures
        q@ == "SELECT row_to_json(t.*) FROM "@ + sql_function_name(entity_name@, "update"@) + "($1, $2, $3) AS t"@,
{
    let mut q = owned("SELECT row_to_json(t.*) FROM ");
    let f = sql_function(entity_name, "update");
    push_str(&mut q, f.as_str());
    push_str(&mut q, "($1, $2, $3) AS t");
    q
}

/// The query that deletes one entity, answering whether it existed.
pub fn delete_query(entity_name: &str) -> (q: String)
    ensures
        q@ == "SELECT "@ + sql_function_name(entity_name@, "delete"@) + "($1, $2)"@,
{
    let mut q = owned("SELECT ");
    let f = sql_function(entity_name, "delete");
    push_str(&mut q, f.as_str());
    push_str(&mut q, "($1, $2)");
    q
}

/// The decimal text of a number, with a `-` before a negative one.
fn signed_text(n: i32) -> (s: String)
    ensures
        s@ == signed_decimal(n as int),
{
    if n < 0 {
        let mut s = owned("-");
        let magnitude = (0i64 - n as i64) as u64;
        let digits = u64_to_string(magnitude);
        push_str(&mut s, digits.as_str());
        s
    } else {
        u64_to_string(n as u64)
    }
}

/// The query that lists the entities of a table that meet the conditions
/// (all of them where there are none), newest first, one page of them.
pub fn list_query(entity_name: &str, where_clause: Option<&str>, limit: i32, offset: i32) -> (q: String)
    ensures
        q@ == "SELECT row_to_json(t.*) FROM caliber_"@ + entity_name@ + " t WHERE "@
            + (match where_clause {
                Some(w) => w@,
                None => "TRUE"@,
            }) + " ORDER BY created_at DESC LIMIT "@ + signed_decimal(limit as int) + " OFFSET "@
            + signed_decimal(offset as int),
{
    let mut q = owned("SELECT row_to_json(t.*) FROM caliber_");
    push_str(&mut q, entity_name);
    push_str(&mut q, " t WHERE ");
    match where_clause {
        Some(w) => push_str(&mut q, w),
        None => push_str(&mut q, "TRUE"),
    }
    push_str(&mut q, " ORDER BY created_at DESC LIMIT ");
    let l = signed_text(limit);
    push_str(&mut q, l.as_str());
    push_str(&mut q, " OFFSET ");
    let o = signed_text(offset);
    push_str(&mut q, o.as_str());
    q
}

} // verus!
