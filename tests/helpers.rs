use fn_macro::args::args_expr;

fn norm(s: &str) -> String {
    s.parse::<proc_macro2::TokenStream>().unwrap().to_string()
}
use fn_macro::attrs::{find_attr, kind_str, AttrKind};
use fn_macro::plan::{fn_impls_plan, Slot, Step};
use fn_macro::tokens::Delim;

#[test]
fn args_expression_tokens() {
    assert_eq!(args_expr(0).to_string(), "");
    assert_eq!(args_expr(1).to_string(), norm("args.0"));
    assert_eq!(args_expr(3).to_string(), norm("args.0,args.1,args.2"));
    let twelve = args_expr(12).to_string();
    assert!(twelve.ends_with(&norm("args.9,args.10,args.11")));
    assert_eq!(twelve.matches("args").count(), 12);
}

#[test]
fn find_attr_takes_first_match() {
    let idents = vec![
        None,
        Some(String::from("derive")),
        Some(String::from("fn_body")),
        Some(String::from("fn_args")),
        Some(String::from("fn_body")),
    ];
    assert_eq!(find_attr(&idents, "fn_body"), Some(2));
    assert_eq!(find_attr(&idents, "fn_args"), Some(3));
    assert_eq!(find_attr(&idents, "fn_output"), None);
    assert_eq!(find_attr(&Vec::new(), "fn_args"), None);
}

#[test]
fn kind_names() {
    assert_eq!(kind_str(AttrKind::Args), "fn_args");
    assert_eq!(kind_str(AttrKind::Body), "fn_body");
    assert_eq!(kind_str(AttrKind::Output), "fn_output");
}

#[test]
fn plan_is_three_balanced_impls() {
    let plan = fn_impls_plan();
    let mut depth: i64 = 0;
    for step in &plan {
        match step {
            Step::Open(_) => depth += 1,
            Step::Close => depth -= 1,
            _ => {}
        }
        assert!(depth >= 0);
    }
    assert_eq!(depth, 0);
    let traits: Vec<&str> = plan
        .windows(2)
        .filter_map(|w| match (w[0], w[1]) {
            (Step::Word("impl"), Step::Word(t)) => Some(t),
            _ => None,
        })
        .collect();
    assert_eq!(traits, vec!["FnOnce", "FnMut", "Fn"]);
    assert_eq!(plan.iter().filter(|s| **s == Step::Splice(Slot::Body)).count(), 1);
    assert_eq!(plan.iter().filter(|s| **s == Step::Splice(Slot::Output)).count(), 1);
    assert_eq!(plan.iter().filter(|s| **s == Step::Splice(Slot::ArgExpr)).count(), 2);
    assert_eq!(plan.iter().filter(|s| **s == Step::Splice(Slot::ArgTypes)).count(), 6);
    assert_eq!(plan.iter().filter(|s| **s == Step::Abi("rust-call")).count(), 3);
    assert_eq!(plan[0], Step::Word("impl"));
    assert_eq!(plan[1], Step::Word("FnOnce"));
    assert_eq!(plan[2], Step::Punct('<', false));
    assert_eq!(plan[3], Step::Open(Delim::Paren));
}
