use controller_matcher::document::{generate_doc_str, generate_document};
use controller_matcher::handler::{extract_function_groups, DocError, HandlerRecord};
use controller_matcher::links::{deserialize_return_type, pull_nested_type};
use controller_matcher::params::generate_doc_param;

const BASE: &str = "../com/foodmobile/server/datamodels/";

fn link(name: &str) -> String {
    format!("[{}]({}{}.html)", name, BASE, name)
}

fn record(method: &str, path: &str, result_type: &str, params: &str) -> HandlerRecord {
    HandlerRecord {
        method: method.to_string(),
        path: path.to_string(),
        access: "public".to_string(),
        result_type: result_type.to_string(),
        func_name: "handler".to_string(),
        params_str: params.to_string(),
    }
}

#[test]
fn no_signature_gives_empty_document() {
    let text = "public class Plain {\n    public int size() { return 0; }\n}\n";
    assert_eq!(extract_function_groups(text).unwrap().len(), 0);
    assert_eq!(generate_document(text).unwrap(), "");
    assert_eq!(generate_document("").unwrap(), "");
}

#[test]
fn simple_status_response_link() {
    let r = deserialize_return_type(&"SimpleStatusResponse".to_string()).unwrap();
    assert_eq!(
        r,
        "[SimpleStatusResponse](../com/foodmobile/server/datamodels/SimpleStatusResponse.html)"
    );
}

#[test]
fn login_response_link() {
    let r = deserialize_return_type(&"LoginResponse".to_string()).unwrap();
    assert_eq!(r, link("LoginResponse"));
}

#[test]
fn data_model_response_two_links() {
    let r = deserialize_return_type(&"DataModelResponse<Foo>".to_string()).unwrap();
    assert_eq!(r, format!("{} {}", link("DataModelResponse"), link("Foo")));
    assert_eq!(r.matches('[').count(), 2);
}

#[test]
fn multi_data_model_response_two_links() {
    let r = deserialize_return_type(&"MultiDataModelResponse<Order>".to_string()).unwrap();
    assert_eq!(r, format!("{} {}", link("MultiDataModelResponse"), link("Order")));
}

#[test]
fn unknown_return_type_has_no_link() {
    assert_eq!(deserialize_return_type(&"String".to_string()).unwrap(), "");
    assert_eq!(deserialize_return_type(&"".to_string()).unwrap(), "");
    assert_eq!(deserialize_return_type(&"SimpleStatusResponses".to_string()).unwrap(), "");
}

#[test]
fn wrapper_without_nested_type_is_malformed() {
    assert_eq!(
        deserialize_return_type(&"DataModelResponse".to_string()),
        Err(DocError::MalformedReturnType)
    );
    assert_eq!(
        pull_nested_type(&"MultiDataModelResponse".to_string()),
        Err(DocError::MalformedReturnType)
    );
}

#[test]
fn nested_type_is_pulled_out() {
    assert_eq!(pull_nested_type(&"DataModelResponse<Item>".to_string()).unwrap(), "Item");
    assert_eq!(pull_nested_type(&"MultiDataModelResponse<A>".to_string()).unwrap(), "A");
}

#[test]
fn params_without_annotations_render_empty() {
    assert_eq!(generate_doc_param(&"@PathVariable String id, @RequestBody Item item".to_string()).unwrap(), "");
    assert_eq!(generate_doc_param(&"".to_string()).unwrap(), "");
}

#[test]
fn params_render_in_order() {
    let r = generate_doc_param(&"@RequestParam String name, @RequestParam Integer count".to_string()).unwrap();
    assert_eq!(r, "- name : String\n- count : Integer\n");
}

#[test]
fn block_of_one_record() {
    let h = record("Put", "/x", "LoginResponse", "@RequestParam Long id");
    let r = generate_doc_str(&h).unwrap();
    assert_eq!(r, format!("#### Put /x\n---\n- id : Long\n\n---\n{}\n", link("LoginResponse")));
}

#[test]
fn block_without_params_or_link() {
    let h = record("Get", "/y", "void", "int x");
    assert_eq!(generate_doc_str(&h).unwrap(), "#### Get /y\n---\n\n---\n\n");
}

#[test]
fn block_with_malformed_return_type_fails() {
    let h = record("Get", "/y", "DataModelResponse", "int x");
    assert_eq!(generate_doc_str(&h), Err(DocError::MalformedReturnType));
}

#[test]
fn round_trip_single_handler() {
    let text = "@GetMapping(path = \"/items\", produces = \"application/json\") public DataModelResponse<Item> getItems(@RequestParam String id) {";
    let records = extract_function_groups(text).unwrap();
    assert_eq!(records.len(), 1);
    assert_eq!(records[0].method, "Get");
    assert_eq!(records[0].path, "/items");
    assert_eq!(records[0].access, "public");
    assert_eq!(records[0].result_type, "DataModelResponse<Item>");
    assert_eq!(records[0].func_name, "getItems");
    assert_eq!(records[0].params_str, "@RequestParam String id");
    let doc = generate_document(text).unwrap();
    assert_eq!(
        doc,
        "#### Get /items\n---\n- id : String\n\n---\n[DataModelResponse](../com/foodmobile/server/datamodels/DataModelResponse.html) [Item](../com/foodmobile/server/datamodels/Item.html)\n"
    );
}

const TWO_HANDLERS: &str = "@GetMapping(path = \"/a\", produces = \"json\")\npublic SimpleStatusResponse getA(@RequestParam String id) {\n    return null;\n}\n\n@PostMapping(path = \"/b\", consumes = \"json\")\nprivate LoginResponse postB(@RequestParam String name, @RequestParam Integer count) {\n    return null;\n}\n";

#[test]
fn two_handlers_match_separately() {
    let records = extract_function_groups(TWO_HANDLERS).unwrap();
    assert_eq!(records.len(), 2);
    assert_eq!(records[0].method, "Get");
    assert_eq!(records[0].path, "/a");
    assert_eq!(records[0].params_str, "@RequestParam String id");
    assert_eq!(records[1].method, "Post");
    assert_eq!(records[1].path, "/b");
    assert_eq!(records[1].access, "private");
    assert_eq!(records[1].params_str, "@RequestParam String name, @RequestParam Integer count");
}

#[test]
fn document_keeps_handler_order() {
    let doc = generate_document(TWO_HANDLERS).unwrap();
    let first = format!("#### Get /a\n---\n- id : String\n\n---\n{}\n", link("SimpleStatusResponse"));
    let second = format!(
        "#### Post /b\n---\n- name : String\n- count : Integer\n\n---\n{}\n",
        link("LoginResponse")
    );
    assert_eq!(doc, format!("{}{}", first, second));
    assert!(doc.find("#### Get /a").unwrap() < doc.find("#### Post /b").unwrap());
}

#[test]
fn put_handler_is_recognized() {
    let text = "@PutMapping(path=\"/p\", x = 1)  protected MultiDataModelResponse<Row> putRows(@RequestParam Row row)";
    let doc = generate_document(text).unwrap();
    assert_eq!(
        doc,
        format!("#### Put /p\n---\n- row : Row\n\n---\n{} {}\n", link("MultiDataModelResponse"), link("Row"))
    );
}

#[test]
fn malformed_wrapper_fails_whole_document() {
    let text = "@GetMapping(path = \"/a\", x = 1) public SimpleStatusResponse a(@RequestParam String id)\n@GetMapping(path = \"/b\", x = 1) public DataModelResponse b(@RequestParam String id)";
    assert_eq!(generate_document(text), Err(DocError::MalformedReturnType));
}
