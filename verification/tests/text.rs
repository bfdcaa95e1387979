use euclidolap::compare::{compare_text, compare_texts, CompareOp, Order};
use euclidolap::service::is_mdx_operation;
use euclidolap::EuclidOLAPService;

#[test]
fn parse_each_operator() {
    assert_eq!(CompareOp::parse("<"), Some(CompareOp::Lt));
    assert_eq!(CompareOp::parse("<="), Some(CompareOp::Le));
    assert_eq!(CompareOp::parse("="), Some(CompareOp::Eq));
    assert_eq!(CompareOp::parse("<>"), Some(CompareOp::Ne));
    assert_eq!(CompareOp::parse(">"), Some(CompareOp::Gt));
    assert_eq!(CompareOp::parse(">="), Some(CompareOp::Ge));
}

#[test]
fn parse_rejects_other_texts() {
    assert_eq!(CompareOp::parse(""), None);
    assert_eq!(CompareOp::parse("=="), None);
    assert_eq!(CompareOp::parse("!="), None);
    assert_eq!(CompareOp::parse("=<"), None);
    assert_eq!(CompareOp::parse("<=>"), None);
    assert_eq!(CompareOp::parse("≤"), None);
}

#[test]
fn holds_on_ordered_and_unordered_values() {
    assert!(CompareOp::Lt.holds(Some(Order::Less)));
    assert!(!CompareOp::Lt.holds(Some(Order::Equal)));
    assert!(CompareOp::Le.holds(Some(Order::Equal)));
    assert!(!CompareOp::Le.holds(Some(Order::Greater)));
    assert!(CompareOp::Ne.holds(Some(Order::Greater)));
    assert!(CompareOp::Ge.holds(Some(Order::Greater)));
    // of unordered values only `<>` holds
    assert!(CompareOp::Ne.holds(None));
    assert!(!CompareOp::Eq.holds(None));
    assert!(!CompareOp::Lt.holds(None));
    assert!(!CompareOp::Ge.holds(None));
}

#[test]
fn text_order_matches_rust_order() {
    let words = ["", "a", "ab", "abc", "abd", "b", "B", "Z", "é", "中", "ab\u{10000}", "abc\u{7f}"];
    for a in words.iter() {
        for b in words.iter() {
            let expected = match a.cmp(b) {
                std::cmp::Ordering::Less => Order::Less,
                std::cmp::Ordering::Equal => Order::Equal,
                std::cmp::Ordering::Greater => Order::Greater,
            };
            assert_eq!(compare_text(a, b), expected, "{:?} vs {:?}", a, b);
        }
    }
}

#[test]
fn compare_texts_by_operator() {
    assert!(compare_texts("apple", "<", "banana"));
    assert!(!compare_texts("apple", ">", "banana"));
    assert!(compare_texts("apple", "<=", "apple"));
    assert!(compare_texts("apple", "=", "apple"));
    assert!(compare_texts("apple", "<>", "apples"));
    assert!(compare_texts("pear", ">=", "apple"));
    assert!(!compare_texts("apple", "==", "apple"));
}

#[test]
fn swapping_sides_swaps_the_operator() {
    for (a, b) in [("x", "y"), ("y", "x"), ("same", "same"), ("", "z")] {
        assert_eq!(compare_texts(a, ">", b), compare_texts(b, "<", a));
        assert_eq!(compare_texts(a, ">=", b), compare_texts(b, "<=", a));
        assert_eq!(compare_texts(a, "=", b), compare_texts(b, "=", a));
    }
}

#[test]
fn only_mdx_requests_are_executed() {
    assert!(is_mdx_operation("MDX"));
    assert!(!is_mdx_operation("mdx"));
    assert!(!is_mdx_operation("MDXX"));
    assert!(!is_mdx_operation(""));
    assert!(!is_mdx_operation("SQL"));
}

#[test]
fn service_has_a_default() {
    let s = EuclidOLAPService::default();
    assert_eq!(format!("{:?}", s), "EuclidOLAPService");
}

use euclidolap::compare::compare_by;

fn order_of(a: f64, b: f64) -> Option<Order> {
    a.partial_cmp(&b).map(|o| match o {
        std::cmp::Ordering::Less => Order::Less,
        std::cmp::Ordering::Equal => Order::Equal,
        std::cmp::Ordering::Greater => Order::Greater,
    })
}

#[test]
fn compare_by_order_of_numbers() {
    assert!(compare_by("<", order_of(1.0, 2.0)));
    assert!(compare_by(">=", order_of(2.0, 2.0)));
    assert!(!compare_by("=", order_of(f64::NAN, f64::NAN)));
    assert!(compare_by("<>", order_of(f64::NAN, 1.0)));
    assert!(!compare_by("<=", order_of(f64::NAN, 1.0)));
    assert!(!compare_by("?", order_of(1.0, 1.0)));
    let ops = ["<", "<=", "=", "<>", ">", ">="];
    let swapped = [">", ">=", "=", "<>", "<", "<="];
    for (a, b) in [(1.0, 2.0), (2.0, 1.0), (3.0, 3.0), (f64::NAN, 1.0)] {
        for (op, sop) in ops.iter().zip(swapped.iter()) {
            assert_eq!(compare_by(op, order_of(a, b)), compare_by(sop, order_of(b, a)));
        }
    }
}
