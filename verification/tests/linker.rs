use golem_agentic::linker::{
    dynamic_import, is_native_interface, note_resource, qualified_function_name, FunctionStub,
    ImportItem, ImportPlan, LinkError, LinkPlan, ParsedFunction,
};

fn function(interface: &str, name: &str, resource: Option<&str>) -> ImportItem {
    ImportItem::Function {
        name: name.to_string(),
        parsed: Ok(ParsedFunction {
            function_name: name.to_string(),
            resource_name: resource.map(|r| r.to_string()),
            display: format!("{}.{{{}}}", interface, name),
        }),
    }
}

fn malformed(name: &str, reason: &str) -> ImportItem {
    ImportItem::Function { name: name.to_string(), parsed: Err(reason.to_string()) }
}

fn resource(name: &str) -> ImportItem {
    ImportItem::Resource { name: name.to_string() }
}

fn stubs(plan: Result<ImportPlan, LinkError>) -> LinkPlan {
    match plan {
        Ok(ImportPlan::Stubs(plan)) => plan,
        other => panic!("expected stubs, got {:?}", other),
    }
}

#[test]
fn one_resource_with_five_methods_is_registered_once() {
    let interface = "golem:it/api";
    let exports = vec![
        resource("cart"),
        function(interface, "[constructor]cart", Some("cart")),
        function(interface, "[method]cart.add-item", Some("cart")),
        function(interface, "[method]cart.remove-item", Some("cart")),
        function(interface, "[method]cart.checkout", Some("cart")),
        function(interface, "[static]cart.merge", Some("cart")),
    ];
    let plan = stubs(dynamic_import(interface, exports));
    assert_eq!(plan.resources, vec!["cart".to_string()]);
    assert_eq!(plan.functions.len(), 5);
    let names: Vec<&str> = plan.functions.iter().map(|f| f.name.as_str()).collect();
    assert_eq!(
        names,
        vec![
            "[constructor]cart",
            "[method]cart.add-item",
            "[method]cart.remove-item",
            "[method]cart.checkout",
            "[static]cart.merge",
        ]
    );
}

#[test]
fn a_resource_that_only_methods_mention_is_registered_too() {
    let interface = "golem:it/api";
    let exports = vec![
        function(interface, "[method]cart.add-item", Some("cart")),
        function(interface, "[method]order.pay", Some("order")),
        function(interface, "[method]cart.checkout", Some("cart")),
        resource("order"),
        resource("invoice"),
        function(interface, "plain", None),
    ];
    let plan = stubs(dynamic_import(interface, exports));
    assert_eq!(
        plan.resources,
        vec!["cart".to_string(), "order".to_string(), "invoice".to_string()]
    );
    assert_eq!(plan.functions.len(), 4);
}

#[test]
fn system_interfaces_are_left_to_the_runtime() {
    for name in [
        "wasi:cli/environment@0.2.0",
        "wasi:clocks/wall-clock@0.2.0",
        "wasi:filesystem/types@0.2.0",
        "wasi:io/streams@0.2.0",
        "wasi:random/random@0.2.0",
        "wasi:sockets/tcp@0.2.0",
        "wasi:cli",
    ] {
        assert!(is_native_interface(name));
        let exports = vec![resource("r"), malformed("f", "never parsed")];
        assert_eq!(dynamic_import(name, exports), Ok(ImportPlan::Native));
    }
}

#[test]
fn other_interfaces_are_stubbed() {
    let names =
        ["wasi:http/types@0.2.0", "golem:api/host@1.1.0", "wasi", "", "xwasi:cli", "WASI:cli"];
    for name in names {
        assert!(!is_native_interface(name));
        let plan = stubs(dynamic_import(name, vec![]));
        assert!(plan.resources.is_empty());
        assert!(plan.functions.is_empty());
    }
}

#[test]
fn items_that_are_neither_function_nor_resource_need_nothing() {
    let plan = stubs(dynamic_import("golem:it/api", vec![ImportItem::Other, ImportItem::Other]));
    assert_eq!(plan, LinkPlan { resources: vec![], functions: vec![] });
}

#[test]
fn a_malformed_function_name_aborts_the_plan() {
    let interface = "golem:it/api";
    let exports = vec![
        resource("cart"),
        function(interface, "ok", None),
        malformed("bad name", "unexpected space"),
        malformed("worse", "second"),
    ];
    let err = dynamic_import(interface, exports).unwrap_err();
    assert_eq!(
        err,
        LinkError::MalformedFunctionName {
            name: "golem:it/api.{bad name}".to_string(),
            reason: "unexpected space".to_string(),
        }
    );
    assert_eq!(
        err.message(),
        "Unexpected linking error: golem:it/api.{bad name} is not a valid function name: \
         unexpected space"
    );
}

#[test]
fn stubs_fail_loudly_naming_the_function() {
    let plan = stubs(dynamic_import(
        "golem:it/api",
        vec![function("golem:it/api", "[method]cart.add-item", Some("cart"))],
    ));
    assert_eq!(
        plan.functions,
        vec![FunctionStub {
            name: "[method]cart.add-item".to_string(),
            display: "golem:it/api.{[method]cart.add-item}".to_string(),
        }]
    );
    assert_eq!(
        plan.functions[0].failure_message(),
        "External function called in get-agent-definitions: golem:it/api.{[method]cart.add-item}"
    );
}

#[test]
fn qualified_names_wrap_the_export_in_braces() {
    assert_eq!(qualified_function_name("golem:it/api", "get"), "golem:it/api.{get}");
    assert_eq!(qualified_function_name("", ""), ".{}");
}

#[test]
fn note_resource_adds_only_new_names() {
    let mut resources = Vec::new();
    note_resource(&mut resources, "a".to_string());
    note_resource(&mut resources, "b".to_string());
    note_resource(&mut resources, "a".to_string());
    note_resource(&mut resources, "A".to_string());
    assert_eq!(resources, vec!["a".to_string(), "b".to_string(), "A".to_string()]);
}
