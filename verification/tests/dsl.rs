use chrono::NaiveDate;
use vegar::dsl::{condition, with, Condition, Operands, Operator, Order, SortDirection, Value};

fn summary(c: &Condition) -> Vec<(String, Operator, usize)> {
    c.exprs()
        .iter()
        .map(|e| {
            let n = match &e.operands {
                Operands::NoValue => 0,
                Operands::One(_) => 1,
                Operands::Two(_, _) => 2,
                Operands::List(v) => v.len(),
            };
            (e.column.clone(), e.op, n)
        })
        .collect()
}

#[test]
fn sort_direction_order() {
    assert_eq!(SortDirection::Asc.order(), Order::Asc);
    assert_eq!(SortDirection::Desc.order(), Order::Desc);
}

#[test]
fn builder_adds_in_order() {
    let c = condition()
        .eq("a".to_string(), Value::Int(1))
        .ne("b".to_string(), Value::Bool(true))
        .gt("c".to_string(), Value::UInt(2))
        .gte("d".to_string(), Value::UInt(3))
        .lt("e".to_string(), Value::UInt(4))
        .lte("f".to_string(), Value::UInt(5))
        .between("g".to_string(), Value::Int(1), Value::Int(9))
        .not_between("h".to_string(), Value::Int(1), Value::Int(9))
        .like("i".to_string(), "%x%".to_string())
        .not_like("j".to_string(), "%y%".to_string())
        .starts_with("k".to_string(), "p".to_string())
        .ends_with("l".to_string(), "s".to_string())
        .contains("m".to_string(), "c".to_string())
        .is_null("n".to_string())
        .is_not_null("o".to_string())
        .is_in("p".to_string(), vec![Value::Int(1), Value::Int(2), Value::Int(3)])
        .is_not_in("q".to_string(), vec![])
        .build();
    let ops: Vec<Operator> = summary(&c).into_iter().map(|(_, op, _)| op).collect();
    assert_eq!(
        ops,
        vec![
            Operator::Eq,
            Operator::Ne,
            Operator::Gt,
            Operator::Gte,
            Operator::Lt,
            Operator::Lte,
            Operator::Between,
            Operator::NotBetween,
            Operator::Like,
            Operator::NotLike,
            Operator::StartsWith,
            Operator::EndsWith,
            Operator::EndsWith,
            Operator::IsNull,
            Operator::IsNotNull,
            Operator::IsIn,
            Operator::IsNotIn,
        ]
    );
    let arity: Vec<usize> = summary(&c).into_iter().map(|(_, _, n)| n).collect();
    assert_eq!(arity, vec![1, 1, 1, 1, 1, 1, 2, 2, 1, 1, 1, 1, 1, 0, 0, 3, 0]);
    assert_eq!(summary(&c)[0].0, "a");
}

#[test]
fn empty_condition_builds_empty() {
    assert!(condition().build().exprs().is_empty());
    assert!(with(Condition::all()).build().exprs().is_empty());
}

#[test]
fn date_range_build() {
    let d1 = NaiveDate::from_ymd_opt(2024, 1, 1).unwrap().and_hms_opt(0, 0, 0).unwrap();
    let d2 = NaiveDate::from_ymd_opt(2024, 2, 1).unwrap().and_hms_opt(0, 0, 0).unwrap();

    let none = condition().date_range("t".to_string()).build().build();
    assert_eq!(summary(&none), vec![("t".to_string(), Operator::IsNotNull, 0)]);

    let to_only = condition().date_range("t".to_string()).to(&d2).build().build();
    assert_eq!(
        summary(&to_only),
        vec![("t".to_string(), Operator::IsNotNull, 0), ("t".to_string(), Operator::Lt, 1)]
    );
    match &to_only.exprs()[1].operands {
        Operands::One(Value::DateTime(d)) => assert_eq!(*d, d2),
        _ => panic!("expected the upper bound"),
    }

    let from_only = condition().date_range("t".to_string()).from(&d1).build().build();
    assert_eq!(
        summary(&from_only),
        vec![("t".to_string(), Operator::IsNotNull, 0), ("t".to_string(), Operator::Gt, 1)]
    );

    let both = condition()
        .eq("u".to_string(), Value::Int(7))
        .date_range("t".to_string())
        .dates(Some(&d1), Some(&d2))
        .build()
        .build();
    assert_eq!(
        summary(&both),
        vec![
            ("u".to_string(), Operator::Eq, 1),
            ("t".to_string(), Operator::IsNotNull, 0),
            ("t".to_string(), Operator::Between, 2),
        ]
    );
    match &both.exprs()[2].operands {
        Operands::Two(Value::DateTime(a), Value::DateTime(b)) => {
            assert_eq!(*a, d1);
            assert_eq!(*b, d2);
        }
        _ => panic!("expected both bounds"),
    }

    let cleared = condition()
        .date_range("t".to_string())
        .from(&d1)
        .dates(None, None)
        .build()
        .build();
    assert_eq!(summary(&cleared), vec![("t".to_string(), Operator::IsNotNull, 0)]);
}
