//! A small builder of query conditions: a condition is the conjunction
//! of column comparisons, added one at a time. The application turns a
//! built condition into a query of its database layer.

use chrono::NaiveDateTime;
use vstd::prelude::*;

verus! {

/// A date and time without time zone, carried as it is.
#[verifier::external_type_specification]
#[verifier::external_body]
pub struct ExNaiveDateTime(NaiveDateTime);

/// Sorting directions.
#[derive(Clone, Copy, Debug, PartialEq, Eq)]
pub enum SortDirection {
    Desc,
    Asc,
}

/// The order of a sorted query.
#[derive(Clone, Copy, Debug, PartialEq, Eq)]
pub enum Order {
    Asc,
    Desc,
}

impl SortDirection {
    /// The query order of this sorting direction.
    pub fn order(&self) -> (o: Order)
        ensures
            (*self is Desc) <==> (o is Desc),
            (*self is Asc) <==> (o is Asc),
    {
        match self {
            SortDirection::Desc => Order::Desc,
            SortDirection::Asc => Order::Asc,
        }
    }
}

/// A value compared against a column.
#[derive(Debug)]
pub enum Value {
    Bool(bool),
    Int(i64),
    UInt(u64),
    Text(String),
    DateTime(NaiveDateTime),
}

/// A value, with text seen as characters.
pub enum ValueView {
    Bool(bool),
    Int(i64),
    UInt(u64),
    Text(Seq<char>),
    DateTime(NaiveDateTime),
}

impl View for Value {
    type V = ValueView;

    open spec fn view(&self) -> ValueView {
        match self {
            Value::Bool(b) => ValueView::Bool(*b),
            Value::Int(i) => ValueView::Int(*i),
            Value::UInt(u) => ValueView::UInt(*u),
            Value::Text(s) => ValueView::Text(s@),
            Value::DateTime(d) => ValueView::DateTime(*d),
        }
    }
}

/// The comparisons that a condition can make.
#[derive(Clone, Copy, Debug, PartialEq, Eq)]
pub enum Operator {
    Eq,
    Ne,
    Gt,
    Gte,
    Lt,
    Lte,
    Between,
    NotBetween,
    Like,
    NotLike,
    StartsWith,
    EndsWith,
    IsNull,
    IsNotNull,
    IsIn,
    IsNotIn,
}

/// The values that a comparison takes.
#[derive(Debug)]
pub enum Operands {
    NoValue,
    One(Value),
    Two(Value, Value),
    List(Vec<Value>),
}

/// One comparison of a column.
#[derive(Debug)]
pub struct Expr {
    pub column: String,
    pub op: Operator,
    pub operands: Operands,
}

/// The values of a comparison, with a list seen as a sequence.
pub enum OperandsView {
    NoValue,
    One(ValueView),
    Two(ValueView, ValueView),
    List(Seq<ValueView>),
}

/// A comparison, with its column seen as text.
pub struct ExprView {
    pub column: Seq<char>,
    pub op: Operator,
    pub operands: OperandsView,
}

impl View for Operands {
    type V = OperandsView;

    open spec fn view(&self) -> OperandsView {
        match self {
            Operands::NoValue => OperandsView::NoValue,
            Operands::One(a) => OperandsView::One(a@),
            Operands::Two(a, b) => OperandsView::Two(a@, b@),
            Operands::List(vs) => OperandsView::List(vs@.map_values(|v: Value| v@)),
        }
    }
}

impl View for Expr {
    type V = ExprView;

    open spec fn view(&self) -> ExprView {
        ExprView { column: self.column@, op: self.op, operands: self.operands@ }
    }
}

/// A conjunction of comparisons (true when empty).
#[derive(Debug)]
pub struct Condition {
    exprs: Vec<Expr>,
}

impl View for Condition {
    type V = Seq<ExprView>;

    closed spec fn view(&self) -> Seq<ExprView> {
        self.exprs@.map_values(|e: Expr| e@)
    }
}

impl Condition {
    /// The empty conjunction.
    pub fn all() -> (c: Condition)
        ensures
            c@ == Seq::<ExprView>::empty(),
    {
        let c = Condition { exprs: Vec::new() };
        assert(c@ =~= Seq::<ExprView>::empty());
        c
    }

    /// The comparisons of the condition, in the order they were added.
    pub fn exprs(&self) -> (e: &Vec<Expr>)
        ensures
            e@.map_values(|x: Expr| x@) == self@,
    {
        &self.exprs
    }

    /// This condition with one more comparison.
    pub fn add(self, e: Expr) -> (c: Condition)
        ensures
            c@ == self@.push(e@),
    {
        let mut exprs = self.exprs;
        exprs.push(e);
        let c = Condition { exprs };
        assert(c@ =~= self@.push(e@));
        c
    }
}

/// A copy of a value.
fn clone_value(v: &Value) -> (c: Value)
    ensures
        c@ == v@,
{
    match v {
        Value::Bool(b) => Value::Bool(*b),
        Value::Int(i) => Value::Int(*i),
        Value::UInt(u) => Value::UInt(*u),
        Value::Text(s) => Value::Text(s.clone()),
        Value::DateTime(d) => Value::DateTime(*d),
    }
}

fn clone_values(vs: &Vec<Value>) -> (c: Vec<Value>)
    ensures
        c@.map_values(|v: Value| v@) == vs@.map_values(|v: Value| v@),
{
    let mut c: Vec<Value> = Vec::new();
    let mut i: usize = 0;
    while i < vs.len()
        invariant
            i <= vs@.len(),
            c@.map_values(|v: Value| v@) == vs@.take(i as int).map_values(|v: Value| v@),
        decreases vs.len() - i,
    {
        let v = clone_value(&vs[i]);
        let ghost prev = c@;
        c.push(v);
        assert(c@.map_values(|v: Value| v@) =~= prev.map_values(|v: Value| v@).push(v@));
        assert(vs@.take(i + 1).map_values(|v: Value| v@) =~= vs@.take(i as int).map_values(
            |v: Value| v@,
        ).push(vs@[i as int]@));
        i = i + 1;
    }
    assert(vs@.take(vs@.len() as int) =~= vs@);
    c
}

/// A copy of a comparison.
fn clone_expr(e: &Expr) -> (c: Expr)
    ensures
        c@ == e@,
{
    let operands = match &e.operands {
        Operands::NoValue => Operands::NoValue,
        Operands::One(a) => Operands::One(clone_value(a)),
        Operands::Two(a, b) => Operands::Two(clone_value(a), clone_value(b)),
        Operands::List(vs) => Operands::List(clone_values(vs)),
    };
    Expr { column: e.column.clone(), op: e.op, operands }
}

/// A copy of a condition.
fn clone_condition(c: &Condition) -> (r: Condition)
    ensures
        r@ == c@,
{
    let mut exprs: Vec<Expr> = Vec::new();
    let mut i: usize = 0;
    while i < c.exprs.len()
        invariant
            i <= c.exprs@.len(),
            exprs@.map_values(|e: Expr| e@) == c.exprs@.take(i as int).map_values(|e: Expr| e@),
        decreases c.exprs.len() - i,
    {
        let e = clone_expr(&c.exprs[i]);
        let ghost prev = exprs@;
        exprs.push(e);
        assert(exprs@.map_values(|e: Expr| e@) =~= prev.map_values(|e: Expr| e@).push(e@));
        assert(c.exprs@.take(i + 1).map_values(|e: Expr| e@) =~= c.exprs@.take(i as int).map_values(
            |e: Expr| e@,
        ).push(c.exprs@[i as int]@));
        i = i + 1;
    }
    assert(c.exprs@.take(c.exprs@.len() as int) =~= c.exprs@);
    let r = Condition { exprs };
    assert(r@ =~= c@);
    r
}

/// The comparison of `column` by `op` with `operands`.
pub open spec fn expr_of(column: String, op: Operator, operands: Operands) -> ExprView {
    ExprView { column: column@, op, operands: operands@ }
}

// ---------------------------------------------------------------------
// What a condition means for a row
// ---------------------------------------------------------------------

/// Whether `p` is a prefix of `s`.
pub open spec fn is_prefix(p: Seq<char>, s: Seq<char>) -> bool {
    p.len() <= s.len() && s.take(p.len() as int) == p
}

/// Whether `p` is a suffix of `s`.
pub open spec fn is_suffix(p: Seq<char>, s: Seq<char>) -> bool {
    p.len() <= s.len() && s.skip(s.len() - p.len()) == p
}

/// Whether `s` matches the SQL `LIKE` pattern `p`, where `%` stands for
/// any text and `_` for any one character.
pub open spec fn like_match(s: Seq<char>, p: Seq<char>) -> bool
    decreases p.len(), s.len(),
{
    if p.len() == 0 {
        s.len() == 0
    } else if p[0] == '%' {
        like_match(s, p.skip(1)) || (s.len() > 0 && like_match(s.skip(1), p))
    } else {
        s.len() > 0 && (p[0] == '_' || p[0] == s[0]) && like_match(s.skip(1), p.skip(1))
    }
}

/// Whether `x` lies between `a` and `b`, both included, in the order
/// `above` of the database.
pub open spec fn within(
    x: ValueView,
    a: ValueView,
    b: ValueView,
    above: spec_fn(ValueView, ValueView) -> bool,
) -> bool {
    (x == a || above(x, a)) && (x == b || above(b, x))
}

/// Whether the comparison `e` holds of `row`, a map from the columns that
/// are not NULL to their values; `above(x, y)` is the database's order,
/// `x > y`. No comparison but `IS NULL` holds of a NULL column.
pub open spec fn expr_holds(
    row: Map<Seq<char>, ValueView>,
    e: ExprView,
    above: spec_fn(ValueView, ValueView) -> bool,
) -> bool {
    let present = row.dom().contains(e.column);
    let x = row[e.column];
    match e.op {
        Operator::IsNull => !present,
        Operator::IsNotNull => present,
        _ => present && match (e.op, e.operands) {
            (Operator::Eq, OperandsView::One(v)) => x == v,
            (Operator::Ne, OperandsView::One(v)) => x != v,
            (Operator::Gt, OperandsView::One(v)) => above(x, v),
            (Operator::Gte, OperandsView::One(v)) => x == v || above(x, v),
            (Operator::Lt, OperandsView::One(v)) => above(v, x),
            (Operator::Lte, OperandsView::One(v)) => x == v || above(v, x),
            (Operator::Between, OperandsView::Two(a, b)) => within(x, a, b, above),
            (Operator::NotBetween, OperandsView::Two(a, b)) => !within(x, a, b, above),
            (Operator::Like, OperandsView::One(ValueView::Text(p))) => x matches ValueView::Text(
                t,
            ) && like_match(t, p),
            (Operator::NotLike, OperandsView::One(ValueView::Text(p))) => !(x matches ValueView::Text(
                t,
            ) && like_match(t, p)),
            (Operator::StartsWith, OperandsView::One(ValueView::Text(p))) => x matches ValueView::Text(
                t,
            ) && is_prefix(p, t),
            (Operator::EndsWith, OperandsView::One(ValueView::Text(p))) => x matches ValueView::Text(
                t,
            ) && is_suffix(p, t),
            (Operator::IsIn, OperandsView::List(vs)) => vs.contains(x),
            (Operator::IsNotIn, OperandsView::List(vs)) => !vs.contains(x),
            _ => false,
        },
    }
}

/// Whether `row` meets every comparison of the condition `c`.
pub open spec fn row_meets(
    row: Map<Seq<char>, ValueView>,
    c: Seq<ExprView>,
    above: spec_fn(ValueView, ValueView) -> bool,
) -> bool {
    forall|i: int| 0 <= i < c.len() ==> expr_holds(row, #[trigger] c[i], above)
}

/// Law: a row meets a condition with one more comparison exactly when it
/// meets the condition and the comparison; the comparisons already there
/// are all kept.
pub proof fn lemma_row_meets_push(
    row: Map<Seq<char>, ValueView>,
    c: Seq<ExprView>,
    e: ExprView,
    above: spec_fn(ValueView, ValueView) -> bool,
)
    ensures
        row_meets(row, c.push(e), above) <==> row_meets(row, c, above) && expr_holds(row, e, above),
{
    if row_meets(row, c, above) && expr_holds(row, e, above) {
        assert forall|i: int| 0 <= i < c.push(e).len() implies expr_holds(
            row,
            #[trigger] c.push(e)[i],
            above,
        ) by {
            if i < c.len() {
                assert(c.push(e)[i] == c[i]);
            }
        }
    }
    if row_meets(row, c.push(e), above) {
        assert(c.push(e)[c.len() as int] == e);
        assert forall|i: int| 0 <= i < c.len() implies expr_holds(row, #[trigger] c[i], above) by {
            assert(c.push(e)[i] == c[i]);
        }
    }
}

/// Law of `eq`: a row meets the condition with `col = value` added
/// exactly when it meets the condition and its `col` is not NULL and
/// equals `value`.
pub proof fn lemma_eq_meaning(
    c: Seq<ExprView>,
    col: String,
    value: Value,
    row: Map<Seq<char>, ValueView>,
    above: spec_fn(ValueView, ValueView) -> bool,
)
    ensures
        row_meets(row, c.push(expr_of(col, Operator::Eq, Operands::One(value))), above) <==> (
        row_meets(row, c, above) && row.dom().contains(col@) && row[col@] == value@),
{
    lemma_row_meets_push(row, c, expr_of(col, Operator::Eq, Operands::One(value)), above);
}

/// Law of `ne`: a row meets the condition with `col <> value` added
/// exactly when it meets the condition and its `col` is not NULL and
/// differs from `value`.
pub proof fn lemma_ne_meaning(
    c: Seq<ExprView>,
    col: String,
    value: Value,
    row: Map<Seq<char>, ValueView>,
    above: spec_fn(ValueView, ValueView) -> bool,
)
    ensures
        row_meets(row, c.push(expr_of(col, Operator::Ne, Operands::One(value))), above) <==> (
        row_meets(row, c, above) && row.dom().contains(col@) && row[col@] != value@),
{
    lemma_row_meets_push(row, c, expr_of(col, Operator::Ne, Operands::One(value)), above);
}

/// Law of `gt`: a row meets the condition with `col > value` added
/// exactly when it meets the condition and its `col` is not NULL and
/// lies strictly above `value`.
pub proof fn lemma_gt_meaning(
    c: Seq<ExprView>,
    col: String,
    value: Value,
    row: Map<Seq<char>, ValueView>,
    above: spec_fn(ValueView, ValueView) -> bool,
)
    ensures
        row_meets(row, c.push(expr_of(col, Operator::Gt, Operands::One(value))), above) <==> (
        row_meets(row, c, above) && row.dom().contains(col@) && above(row[col@], value@)),
{
    lemma_row_meets_push(row, c, expr_of(col, Operator::Gt, Operands::One(value)), above);
}

/// Law of `lt`: a row meets the condition with `col < value` added
/// exactly when it meets the condition and its `col` is not NULL and
/// lies strictly below `value`.
pub proof fn lemma_lt_meaning(
    c: Seq<ExprView>,
    col: String,
    value: Value,
    row: Map<Seq<char>, ValueView>,
    above: spec_fn(ValueView, ValueView) -> bool,
)
    ensures
        row_meets(row, c.push(expr_of(col, Operator::Lt, Operands::One(value))), above) <==> (
        row_meets(row, c, above) && row.dom().contains(col@) && above(value@, row[col@])),
{
    lemma_row_meets_push(row, c, expr_of(col, Operator::Lt, Operands::One(value)), above);
}

/// Law of `contains`: a row meets the condition with `contains(col, a)`
/// added exactly when it meets the condition and its `col` is a text
/// that ends with `a`.
pub proof fn lemma_contains_meaning(
    c: Seq<ExprView>,
    col: String,
    a: String,
    row: Map<Seq<char>, ValueView>,
    above: spec_fn(ValueView, ValueView) -> bool,
)
    ensures
        row_meets(
            row,
            c.push(expr_of(col, Operator::EndsWith, Operands::One(Value::Text(a)))),
            above,
        ) <==> (row_meets(row, c, above) && row.dom().contains(col@) && (row[col@] matches ValueView::Text(
            t,
        ) && is_suffix(a@, t))),
{
    lemma_row_meets_push(
        row,
        c,
        expr_of(col, Operator::EndsWith, Operands::One(Value::Text(a))),
        above,
    );
}

/// Law of `ends_with`: a row meets the condition with `col` required to
/// end with `a` exactly when it meets the condition and its `col` is a
/// text that ends with `a`.
pub proof fn lemma_ends_with_meaning(
    c: Seq<ExprView>,
    col: String,
    a: String,
    row: Map<Seq<char>, ValueView>,
    above: spec_fn(ValueView, ValueView) -> bool,
)
    ensures
        row_meets(
            row,
            c.push(expr_of(col, Operator::EndsWith, Operands::One(Value::Text(a)))),
            above,
        ) <==> (row_meets(row, c, above) && row.dom().contains(col@) && (row[col@] matches ValueView::Text(
            t,
        ) && is_suffix(a@, t))),
{
    lemma_row_meets_push(
        row,
        c,
        expr_of(col, Operator::EndsWith, Operands::One(Value::Text(a))),
        above,
    );
}

/// Law of `is_null` and `is_not_null`: a row meets the condition with
/// `col IS NULL` (`IS NOT NULL`) added exactly when it meets the
/// condition and its `col` is (is not) NULL.
pub proof fn lemma_null_meaning(
    c: Seq<ExprView>,
    col: String,
    row: Map<Seq<char>, ValueView>,
    above: spec_fn(ValueView, ValueView) -> bool,
)
    ensures
        row_meets(row, c.push(expr_of(col, Operator::IsNull, Operands::NoValue)), above) <==> (
        row_meets(row, c, above) && !row.dom().contains(col@)),
        row_meets(row, c.push(expr_of(col, Operator::IsNotNull, Operands::NoValue)), above) <==> (
        row_meets(row, c, above) && row.dom().contains(col@)),
{
    lemma_row_meets_push(row, c, expr_of(col, Operator::IsNull, Operands::NoValue), above);
    lemma_row_meets_push(row, c, expr_of(col, Operator::IsNotNull, Operands::NoValue), above);
}

/// Law of a date range: the range on `col` begun on condition `c` is
/// met by a row exactly when the row meets `c`, its `col` is not NULL and,
/// with both bounds set, lies between the two dates (both included);
/// with no bound set, the not-NULL test is all that is added.
pub proof fn lemma_date_range_meaning(
    c: Seq<ExprView>,
    col: String,
    from: NaiveDateTime,
    to: NaiveDateTime,
    row: Map<Seq<char>, ValueView>,
    above: spec_fn(ValueView, ValueView) -> bool,
)
    ensures
        row_meets(row, c.push(expr_of(col, Operator::IsNotNull, Operands::NoValue)), above) <==> (
        row_meets(row, c, above) && row.dom().contains(col@)),
        row_meets(
            row,
            c.push(expr_of(col, Operator::IsNotNull, Operands::NoValue)).push(
                expr_of(
                    col,
                    Operator::Between,
                    Operands::Two(Value::DateTime(from), Value::DateTime(to)),
                ),
            ),
            above,
        ) <==> (row_meets(row, c, above) && row.dom().contains(col@) && within(
            row[col@],
            ValueView::DateTime(from),
            ValueView::DateTime(to),
            above,
        )),
{
    let nn = c.push(expr_of(col, Operator::IsNotNull, Operands::NoValue));
    lemma_row_meets_push(row, c, expr_of(col, Operator::IsNotNull, Operands::NoValue), above);
    lemma_row_meets_push(
        row,
        nn,
        expr_of(col, Operator::Between, Operands::Two(Value::DateTime(from), Value::DateTime(to))),
        above,
    );
}

/// Builds a query condition one comparison at a time.
pub struct ConditionBuilder {
    condition: Condition,
}

impl View for ConditionBuilder {
    type V = Seq<ExprView>;

    closed spec fn view(&self) -> Seq<ExprView> {
        self.condition@
    }
}

/// A builder that starts from the empty conjunction.
pub fn condition() -> (b: ConditionBuilder)
    ensures
        b@ == Seq::<ExprView>::empty(),
{
    ConditionBuilder { condition: Condition::all() }
}

/// A builder that starts from `condition`.
pub fn with(condition: Condition) -> (b: ConditionBuilder)
    ensures
        b@ == condition@,
{
    ConditionBuilder { condition }
}

impl ConditionBuilder {
    fn push(self, column: String, op: Operator, operands: Operands) -> (b: Self)
        ensures
            b@ == self@.push(expr_of(column, op, operands)),
    {
        with(self.condition.add(Expr { column, op, operands }))
    }

    /// where the given column equals the given value
    pub fn eq(self, col: String, value: Value) -> (b: Self)
        ensures
            b@ == self@.push(expr_of(col, Operator::Eq, Operands::One(value))),
    {
        self.push(col, Operator::Eq, Operands::One(value))
    }

    /// where the given column does not equal the given value
    pub fn ne(self, col: String, value: Value) -> (b: Self)
        ensures
            b@ == self@.push(expr_of(col, Operator::Ne, Operands::One(value))),
    {
        self.push(col, Operator::Ne, Operands::One(value))
    }

    /// where the given column is greater than the given value
    pub fn gt(self, col: String, value: Value) -> (b: Self)
        ensures
            b@ == self@.push(expr_of(col, Operator::Gt, Operands::One(value))),
    {
        self.push(col, Operator::Gt, Operands::One(value))
    }

    /// where the given column is greater than or equal to the given value
    pub fn gte(self, col: String, value: Value) -> (b: Self)
        ensures
            b@ == self@.push(expr_of(col, Operator::Gte, Operands::One(value))),
    {
        self.push(col, Operator::Gte, Operands::One(value))
    }

    /// where the given column is smaller than the given value
    pub fn lt(self, col: String, value: Value) -> (b: Self)
        ensures
            b@ == self@.push(expr_of(col, Operator::Lt, Operands::One(value))),
    {
        self.push(col, Operator::Lt, Operands::One(value))
    }

    /// where the given column is smaller than or equal to the given value
    pub fn lte(self, col: String, value: Value) -> (b: Self)
        ensures
            b@ == self@.push(expr_of(col, Operator::Lte, Operands::One(value))),
    {
        self.push(col, Operator::Lte, Operands::One(value))
    }

    /// where the given column is between the given values
    pub fn between(self, col: String, a: Value, b: Value) -> (r: Self)
        ensures
            r@ == self@.push(expr_of(col, Operator::Between, Operands::Two(a, b))),
    {
        self.push(col, Operator::Between, Operands::Two(a, b))
    }

    /// where the given column is not between the given values
    pub fn not_between(self, col: String, a: Value, b: Value) -> (r: Self)
        ensures
            r@ == self@.push(expr_of(col, Operator::NotBetween, Operands::Two(a, b))),
    {
        self.push(col, Operator::NotBetween, Operands::Two(a, b))
    }

    /// where the given column is like the given pattern
    pub fn like(self, col: String, a: String) -> (r: Self)
        ensures
            r@ == self@.push(expr_of(col, Operator::Like, Operands::One(Value::Text(a)))),
    {
        self.push(col, Operator::Like, Operands::One(Value::Text(a)))
    }

    /// where the given column is not like the given pattern
    pub fn not_like(self, col: String, a: String) -> (r: Self)
        ensures
            r@ == self@.push(expr_of(col, Operator::NotLike, Operands::One(Value::Text(a)))),
    {
        self.push(col, Operator::NotLike, Operands::One(Value::Text(a)))
    }

    /// where the given column starts with the given text
    pub fn starts_with(self, col: String, a: String) -> (r: Self)
        ensures
            r@ == self@.push(expr_of(col, Operator::StartsWith, Operands::One(Value::Text(a)))),
    {
        self.push(col, Operator::StartsWith, Operands::One(Value::Text(a)))
    }

    /// where the given column ends with the given text
    pub fn ends_with(self, col: String, a: String) -> (r: Self)
        ensures
            r@ == self@.push(expr_of(col, Operator::EndsWith, Operands::One(Value::Text(a)))),
    {
        self.push(col, Operator::EndsWith, Operands::One(Value::Text(a)))
    }

    /// where the given column ends with the given text
    pub fn contains(self, col: String, a: String) -> (r: Self)
        ensures
            r@ == self@.push(expr_of(col, Operator::EndsWith, Operands::One(Value::Text(a)))),
    {
        self.push(col, Operator::EndsWith, Operands::One(Value::Text(a)))
    }

    /// where the given column is null
    pub fn is_null(self, col: String) -> (r: Self)
        ensures
            r@ == self@.push(expr_of(col, Operator::IsNull, Operands::NoValue)),
    {
        self.push(col, Operator::IsNull, Operands::NoValue)
    }

    /// where the given column is not null
    pub fn is_not_null(self, col: String) -> (r: Self)
        ensures
            r@ == self@.push(expr_of(col, Operator::IsNotNull, Operands::NoValue)),
    {
        self.push(col, Operator::IsNotNull, Operands::NoValue)
    }

    /// where the given column is one of the given values
    pub fn is_in(self, col: String, values: Vec<Value>) -> (r: Self)
        ensures
            r@ == self@.push(expr_of(col, Operator::IsIn, Operands::List(values))),
    {
        self.push(col, Operator::IsIn, Operands::List(values))
    }

    /// where the given column is none of the given values
    pub fn is_not_in(self, col: String, values: Vec<Value>) -> (r: Self)
        ensures
            r@ == self@.push(expr_of(col, Operator::IsNotIn, Operands::List(values))),
    {
        self.push(col, Operator::IsNotIn, Operands::List(values))
    }

    /// where the given column is not null: a builder of a date range on
    /// the column, continuing this condition with `col IS NOT NULL`.
    pub fn date_range(self, col: String) -> (r: DateRangeBuilder)
        ensures
            r.column() == col,
            r.base() == self@.push(expr_of(col, Operator::IsNotNull, Operands::NoValue)),
            r.from_date() is None,
            r.to_date() is None,
    {
        let name = col.clone();
        DateRangeBuilder::new(self.is_not_null(name), col)
    }

    /// The condition built so far.
    pub fn build(&self) -> (c: Condition)
        ensures
            c@ == self@,
    {
        clone_condition(&self.condition)
    }
}

/// Adds a date range on a column to a condition.
pub struct DateRangeBuilder {
    col: String,
    condition_builder: ConditionBuilder,
    from_date: Option<NaiveDateTime>,
    to_date: Option<NaiveDateTime>,
}

impl DateRangeBuilder {
    pub closed spec fn column(&self) -> String {
        self.col
    }

    pub closed spec fn base(&self) -> Seq<ExprView> {
        self.condition_builder@
    }

    pub closed spec fn from_date(&self) -> Option<NaiveDateTime> {
        self.from_date
    }

    pub closed spec fn to_date(&self) -> Option<NaiveDateTime> {
        self.to_date
    }

    /// A range on `col` with no bound yet, continuing `condition_builder`.
    pub fn new(condition_builder: ConditionBuilder, col: String) -> (r: Self)
        ensures
            r.column() == col,
            r.base() == condition_builder@,
            r.from_date() is None,
            r.to_date() is None,
    {
        DateRangeBuilder { col, condition_builder, from_date: None, to_date: None }
    }

    /// Sets both bounds (either may be absent).
    pub fn dates(self, from: Option<&NaiveDateTime>, to: Option<&NaiveDateTime>) -> (r: Self)
        ensures
            r.column() == self.column(),
            r.base() == self.base(),
            r.from_date() == (match from {
                Some(d) => Some(*d),
                None => None,
            }),
            r.to_date() == (match to {
                Some(d) => Some(*d),
                None => None,
            }),
    {
        let from_date = match from {
            Some(d) => Some(*d),
            None => None,
        };
        let to_date = match to {
            Some(d) => Some(*d),
            None => None,
        };
        DateRangeBuilder {
            col: self.col,
            condition_builder: self.condition_builder,
            from_date,
            to_date,
        }
    }

    /// Sets the lower bound.
    pub fn from(self, from: &NaiveDateTime) -> (r: Self)
        ensures
            r.column() == self.column(),
            r.base() == self.base(),
            r.from_date() == Some(*from),
            r.to_date() == self.to_date(),
    {
        DateRangeBuilder {
            col: self.col,
            condition_builder: self.condition_builder,
            from_date: Some(*from),
            to_date: self.to_date,
        }
    }

    /// Sets the upper bound.
    pub fn to(self, to: &NaiveDateTime) -> (r: Self)
        ensures
            r.column() == self.column(),
            r.base() == self.base(),
            r.from_date() == self.from_date(),
            r.to_date() == Some(*to),
    {
        DateRangeBuilder {
            col: self.col,
            condition_builder: self.condition_builder,
            from_date: self.from_date,
            to_date: Some(*to),
        }
    }

    /// The condition with the range added: nothing without bounds,
    /// `col < to` with only an upper bound, `col > from` with only a lower
    /// bound, `col BETWEEN from AND to` with both.
    pub fn build(self) -> (b: ConditionBuilder)
        ensures
            b@ == match (self.from_date(), self.to_date()) {
                (None, None) => self.base(),
                (None, Some(to)) => self.base().push(
                    expr_of(self.column(), Operator::Lt, Operands::One(Value::DateTime(to))),
                ),
                (Some(from), None) => self.base().push(
                    expr_of(self.column(), Operator::Gt, Operands::One(Value::DateTime(from))),
                ),
                (Some(from), Some(to)) => self.base().push(
                    expr_of(
                        self.column(),
                        Operator::Between,
                        Operands::Two(Value::DateTime(from), Value::DateTime(to)),
                    ),
                ),
            },
    {
        let con = match (self.from_date, self.to_date) {
            (None, None) => self.condition_builder.condition,
            (None, Some(to)) => self.condition_builder.condition.add(
                Expr { column: self.col, op: Operator::Lt, operands: Operands::One(Value::DateTime(to)) },
            ),
            (Some(from), None) => self.condition_builder.condition.add(
                Expr { column: self.col, op: Operator::Gt, operands: Operands::One(Value::DateTime(from)) },
            ),
            (Some(from), Some(to)) => self.condition_builder.condition.add(
                Expr {
                    column: self.col,
                    op: Operator::Between,
                    operands: Operands::Two(Value::DateTime(from), Value::DateTime(to)),
                },
            ),
        };
        with(con)
    }
}

} // verus!
