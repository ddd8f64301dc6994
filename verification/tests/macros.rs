use jsonrpc_utils::macros::{
    add_methods_fn_name, doc_fn_name, documents_inner_result, join_doc_lines, param_names, params_parsing,
    pub_sub_names, rpc_method_name, to_snake_case, trailing_optional_count, MissingArg, ParamsParsing,
};

#[test]
fn snake_case_of_identifiers() {
    assert_eq!(to_snake_case("MyRpc".to_string()), "my_rpc");
    assert_eq!(to_snake_case("HTTPApi".to_string()), "h_t_t_p_api");
    assert_eq!(to_snake_case("already_snake".to_string()), "already_snake");
    assert_eq!(to_snake_case("".to_string()), "");
    assert_eq!(to_snake_case("_Ab".to_string()), "__ab");
}

#[test]
fn generated_function_names() {
    assert_eq!(add_methods_fn_name("MyRpc".to_string()), "add_my_rpc_methods");
    assert_eq!(doc_fn_name("MyRpc".to_string()), "my_rpc_doc");
    assert_eq!(rpc_method_name(Some("@ping".to_string()), "ping".to_string()), "@ping");
    assert_eq!(rpc_method_name(None, "ping".to_string()), "ping");
}

#[test]
fn optional_parameters() {
    let opt = || Some("Option".to_string());
    assert_eq!(trailing_optional_count(&vec![Some("u64".to_string()), opt(), opt()]), 2);
    assert_eq!(trailing_optional_count(&vec![opt(), Some("u64".to_string())]), 0);
    assert_eq!(trailing_optional_count(&vec![None, opt()]), 1);
    assert_eq!(trailing_optional_count(&vec![]), 0);
    assert_eq!(params_parsing(3, 2), ParamsParsing::TrailingOptional { required: 1 });
    assert_eq!(params_parsing(0, 0), ParamsParsing::NoParams);
    assert_eq!(params_parsing(2, 0), ParamsParsing::Positional);
}

#[test]
fn parameter_names() {
    let names = param_names(&vec![Some("x".to_string()), None, Some("z".to_string()), None]);
    assert_eq!(names, vec!["x", "param_1", "z", "param_2"]);
    let many: Vec<Option<String>> = (0..12).map(|_| None).collect();
    assert_eq!(param_names(&many)[11], "param_12");
}

#[test]
fn doc_lines_and_pub_sub_args() {
    assert_eq!(join_doc_lines(&vec![" a".to_string(), " b".to_string()]), " a\n b");
    assert_eq!(join_doc_lines(&vec![]), "");
    assert_eq!(
        pub_sub_names(Some("n".to_string()), Some("u".to_string())),
        Ok(("n".to_string(), "u".to_string()))
    );
    assert_eq!(pub_sub_names(None, Some("u".to_string())), Err(MissingArg::Notify));
    assert_eq!(pub_sub_names(Some("n".to_string()), None), Err(MissingArg::Unsubscribe));
    assert!(documents_inner_result(Some("Result"), true));
    assert!(!documents_inner_result(Some("Result"), false));
    assert!(!documents_inner_result(Some("Vec"), true));
    assert!(!documents_inner_result(None, true));
}
