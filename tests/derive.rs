use fn_macro::attrs::AttrKind;
use fn_macro::derive::{expand, AttrInfo, DeriveError};
use fn_macro::{derive_fn_mut, fn_args, fn_body, fn_output};
use proc_macro2::TokenStream;

fn ts(s: &str) -> TokenStream {
    s.parse().unwrap()
}

fn norm(s: &str) -> String {
    ts(s).to_string()
}

const TEST_ITEM: &str = r#"
    #[derive(Fn)]
    #[fn_args(f64, f64, String)]
    #[fn_body{
        let k = self.0 + args.0;
        format!("{} {}", args.2, k + args.1)
    }]
    #[fn_output(String)]
    struct Test(f64);
"#;

fn impls_of(out: TokenStream) -> Vec<syn::ItemImpl> {
    let file: syn::File = syn::parse2(out).unwrap();
    file.items
        .into_iter()
        .map(|item| match item {
            syn::Item::Impl(i) => i,
            _ => panic!("not an impl"),
        })
        .collect()
}

fn trait_text(i: &syn::ItemImpl) -> String {
    let path = &i.trait_.as_ref().unwrap().1;
    quote::ToTokens::to_token_stream(path).to_string()
}

fn method_of(i: &syn::ItemImpl) -> &syn::ImplItemFn {
    i.items
        .iter()
        .find_map(|it| match it {
            syn::ImplItem::Fn(f) => Some(f),
            _ => None,
        })
        .unwrap()
}

#[test]
fn generates_three_impls() {
    let out = derive_fn_mut(ts(TEST_ITEM)).unwrap();
    let impls = impls_of(out);
    assert_eq!(impls.len(), 3);
    let tuple = norm("<(f64, f64, String)>");
    assert_eq!(trait_text(&impls[0]), norm("FnOnce") + " " + &tuple);
    assert_eq!(trait_text(&impls[1]), norm("FnMut") + " " + &tuple);
    assert_eq!(trait_text(&impls[2]), norm("Fn") + " " + &tuple);
    for i in &impls {
        assert_eq!(quote::ToTokens::to_token_stream(&i.self_ty).to_string(), "Test");
    }
    assert_eq!(impls[0].items.len(), 2);
    assert_eq!(impls[1].items.len(), 1);
    assert_eq!(impls[2].items.len(), 1);
    match &impls[0].items[0] {
        syn::ImplItem::Type(t) => {
            assert_eq!(t.ident.to_string(), "Output");
            assert_eq!(quote::ToTokens::to_token_stream(&t.ty).to_string(), "String");
        }
        _ => panic!("FnOnce declares its output first"),
    }
}

#[test]
fn methods_share_one_body() {
    let impls = impls_of(derive_fn_mut(ts(TEST_ITEM)).unwrap());
    let names: Vec<String> = impls.iter().map(|i| method_of(i).sig.ident.to_string()).collect();
    assert_eq!(names, vec!["call_once", "call_mut", "call"]);
    let forward = norm("{ self(args.0, args.1, args.2) }");
    let once = method_of(&impls[0]);
    let mutable = method_of(&impls[1]);
    let shared = method_of(&impls[2]);
    assert_eq!(quote::ToTokens::to_token_stream(&once.block).to_string(), forward);
    assert_eq!(quote::ToTokens::to_token_stream(&mutable.block).to_string(), forward);
    assert_eq!(
        quote::ToTokens::to_token_stream(&shared.block).to_string(),
        norm(r#"{ let k = self.0 + args.0; format!("{} {}", args.2, k + args.1) }"#)
    );
    for f in [once, mutable, shared] {
        let abi = f.sig.abi.as_ref().unwrap();
        assert_eq!(abi.name.as_ref().unwrap().value(), "rust-call");
        assert_eq!(
            quote::ToTokens::to_token_stream(&f.sig.output).to_string(),
            norm("-> Self::Output")
        );
    }
    let receivers: Vec<String> = impls
        .iter()
        .map(|i| {
            let arg = method_of(i).sig.inputs.first().unwrap();
            quote::ToTokens::to_token_stream(arg).to_string()
        })
        .collect();
    assert_eq!(receivers, vec![norm("self"), norm("&mut self"), norm("&self")]);
}

#[test]
fn single_argument_with_trailing_comma() {
    let item = "#[fn_args(u8,)] #[fn_body{ args.0 }] #[fn_output(u8)] struct One;";
    let impls = impls_of(derive_fn_mut(ts(item)).unwrap());
    let block = &method_of(&impls[0]).block;
    assert_eq!(quote::ToTokens::to_token_stream(block).to_string(), norm("{ self(args.0) }"));
}

#[test]
fn no_arguments() {
    let item = "#[fn_args()] #[fn_body{ 7 }] #[fn_output(i32)] struct Seven;";
    let impls = impls_of(derive_fn_mut(ts(item)).unwrap());
    let block = &method_of(&impls[1]).block;
    assert_eq!(quote::ToTokens::to_token_stream(block).to_string(), norm("{ self() }"));
}

#[test]
fn missing_args_attribute() {
    let item = "#[fn_body{ 1 }] #[fn_output(u8)] struct S;";
    assert!(matches!(derive_fn_mut(ts(item)), Err(DeriveError::Missing(AttrKind::Args))));
}

#[test]
fn missing_body_attribute() {
    let item = "#[fn_args(u8)] #[fn_output(u8)] struct S;";
    assert!(matches!(derive_fn_mut(ts(item)), Err(DeriveError::Missing(AttrKind::Body))));
}

#[test]
fn missing_output_attribute() {
    let item = "#[fn_args(u8)] #[fn_body{ 1 }] struct S;";
    assert!(matches!(derive_fn_mut(ts(item)), Err(DeriveError::Missing(AttrKind::Output))));
}

#[test]
fn attribute_not_a_list() {
    let item = "#[fn_args] #[fn_output(u8)] struct S;";
    match derive_fn_mut(ts(item)) {
        Err(DeriveError::NotList(AttrKind::Args)) => {}
        other => panic!("unexpected: {:?}", other.map(|t| t.to_string())),
    }
    let item = "#[fn_args(u8)] #[fn_body = 1] #[fn_output(u8)] struct S;";
    assert!(matches!(derive_fn_mut(ts(item)), Err(DeriveError::NotList(AttrKind::Body))));
}

#[test]
fn input_that_is_not_an_item() {
    assert!(matches!(derive_fn_mut(ts("fn f() {}")), Err(DeriveError::Parse(_))));
}

#[test]
fn expand_reads_first_attribute_of_each_kind() {
    let info = |name: &str, tokens: Option<&str>| AttrInfo {
        ident: Some(String::from(name)),
        tokens: tokens.map(ts),
    };
    let attrs = vec![
        AttrInfo { ident: None, tokens: Some(TokenStream::new()) },
        info("fn_output", Some("bool")),
        info("fn_args", Some("u8, u8")),
        info("fn_body", Some("true")),
        info("fn_args", None),
    ];
    let impls = impls_of(expand(ts("Pair"), &attrs).unwrap());
    assert_eq!(impls.len(), 3);
    assert_eq!(
        quote::ToTokens::to_token_stream(&method_of(&impls[0]).block).to_string(),
        norm("{ self(args.0, args.1) }")
    );

    let attrs = vec![info("fn_args", None), info("fn_args", Some("u8"))];
    assert!(matches!(expand(ts("P"), &attrs), Err(DeriveError::NotList(AttrKind::Args))));
    let attrs = vec![info("fn_args", Some("u8")), info("fn_output", None)];
    assert!(matches!(expand(ts("P"), &attrs), Err(DeriveError::Missing(AttrKind::Body))));
}

#[test]
fn holder_attributes_keep_the_item() {
    let item = ts("struct S(u8);");
    assert_eq!(fn_args(ts("u8"), item.clone()).to_string(), item.to_string());
    assert_eq!(fn_body(ts("{ 1 }"), item.clone()).to_string(), item.to_string());
    assert_eq!(fn_output(ts("u8"), item.clone()).to_string(), item.to_string());
}

#[test]
fn one_access_per_argument_type() {
    let item = "#[fn_args(Vec<u8>, Option<(u8, u16)>)] #[fn_body{ 0 }] #[fn_output(u8)] struct V;";
    let impls = impls_of(derive_fn_mut(ts(item)).unwrap());
    let block = &method_of(&impls[0]).block;
    assert_eq!(quote::ToTokens::to_token_stream(block).to_string(), norm("{ self(args.0, args.1) }"));
}

#[test]
fn single_type_without_comma() {
    let item = "#[fn_args(f64)] #[fn_body{ args }] #[fn_output(f64)] struct F;";
    let impls = impls_of(derive_fn_mut(ts(item)).unwrap());
    assert_eq!(trait_text(&impls[0]), norm("FnOnce<(f64)>"));
    let block = &method_of(&impls[1]).block;
    assert_eq!(quote::ToTokens::to_token_stream(block).to_string(), norm("{ self(args.0) }"));
}

#[test]
fn bracket_and_brace_lists_are_accepted() {
    for item in [
        "#[fn_args[f64, u8]] #[fn_body{ 0 }] #[fn_output(u8)] struct B;",
        "#[fn_args{f64, u8}] #[fn_body{ 0 }] #[fn_output(u8)] struct B;",
    ] {
        let impls = impls_of(derive_fn_mut(ts(item)).unwrap());
        assert_eq!(trait_text(&impls[2]), norm("Fn<(f64, u8)>"));
    }
}

#[test]
fn enums_and_unions_like_structs() {
    let attrs = "#[fn_args(u8)] #[fn_body{ 1 }] #[fn_output(u8)]";
    let a = derive_fn_mut(ts(&format!("{} struct K;", attrs))).unwrap().to_string();
    let b = derive_fn_mut(ts(&format!("{} enum K {{ A, B }}", attrs))).unwrap().to_string();
    let c = derive_fn_mut(ts(&format!("{} union K {{ x: u8 }}", attrs))).unwrap().to_string();
    assert_eq!(a, b);
    assert_eq!(a, c);
}

#[test]
fn argument_list_that_is_not_types() {
    let item = "#[fn_args(1 + 2)] #[fn_body{ 0 }] #[fn_output(u8)] struct N;";
    assert!(matches!(derive_fn_mut(ts(item)), Err(DeriveError::ArgTypes(_))));
}
