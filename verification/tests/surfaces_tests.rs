use sqlitegis::spatial_index::validate_identifier;
use sqlitegis::surfaces::{
    diesel_signature, extract_diesel_define_blocks, parse_name_and_args_after_fn,
    sql_name_override,
};

const TEMPLATE: &str = "use diesel::sql_types::*;\n\
diesel::define_sql_function! {\n    /// ST_Area\n    fn st_area(geom: Binary) -> Double;\n}\n\
\n\
diesel::define_sql_function! {\n    #[sql_name = \"ST_Distance\"]\n    fn st_distance(a: Binary, b: Binary) -> Double;\n}\n\
diesel::define_sql_function! {\n    fn st_makepoint(x: Double, y: Double, srid: Nullable<Integer>) -> Binary;\n    // { nested } braces\n}\n";

#[test]
fn extracts_every_block_in_order() {
    let blocks = extract_diesel_define_blocks(TEMPLATE).unwrap();
    assert_eq!(blocks.len(), 3);
    assert_eq!(
        blocks[0],
        "diesel::define_sql_function! {\n    /// ST_Area\n    fn st_area(geom: Binary) -> Double;\n}"
    );
    assert!(blocks[1].contains("#[sql_name = \"ST_Distance\"]"));
    assert!(blocks[2].ends_with("// { nested } braces\n}"));
    for b in &blocks {
        assert!(b.starts_with("diesel::define_sql_function! {"));
        assert!(b.ends_with('}'));
    }
}

#[test]
fn extract_without_blocks_is_empty() {
    assert!(extract_diesel_define_blocks("fn main() {}").unwrap().is_empty());
    assert!(extract_diesel_define_blocks("").unwrap().is_empty());
}

#[test]
fn extract_rejects_unterminated_block() {
    let err = extract_diesel_define_blocks("diesel::define_sql_function! { fn f(a: Binary)")
        .unwrap_err();
    assert_eq!(err, "unterminated diesel::define_sql_function! block in template");
}

#[test]
fn signature_reads_name_and_argument_count() {
    let blocks = extract_diesel_define_blocks(TEMPLATE).unwrap();
    assert_eq!(diesel_signature(&blocks[0]).unwrap(), ("ST_AREA".to_string(), 1));
    assert_eq!(diesel_signature(&blocks[1]).unwrap(), ("ST_DISTANCE".to_string(), 2));
    assert_eq!(diesel_signature(&blocks[2]).unwrap(), ("ST_MAKEPOINT".to_string(), 3));
}

#[test]
fn signature_counts_only_non_blank_arguments() {
    let sig = diesel_signature("define! { fn f( a: X , , b: Y, ) -> Z; }").unwrap();
    assert_eq!(sig, ("F".to_string(), 2));
    let none = diesel_signature("define! { fn st_now(  ) -> Z; }").unwrap();
    assert_eq!(none, ("ST_NOW".to_string(), 0));
}

#[test]
fn signature_errors() {
    assert_eq!(
        diesel_signature("no function here").unwrap_err(),
        "missing `fn` in diesel declaration block"
    );
    assert_eq!(
        diesel_signature("fn broken(a: X").unwrap_err(),
        "failed to parse diesel declaration function signature"
    );
}

#[test]
fn name_and_args_after_fn_balance_parentheses() {
    let src = "fn st_x(geom: Nullable<(Binary)>, b: T) -> Double";
    let (name, args) = parse_name_and_args_after_fn(src, 3).unwrap();
    assert_eq!(name, "st_x");
    assert_eq!(args, "geom: Nullable<(Binary)>, b: T");
    assert!(parse_name_and_args_after_fn("fn f(a", 3).is_none());
    assert!(parse_name_and_args_after_fn("fn f", 3).is_none());
}

#[test]
fn name_and_args_after_fn_uses_byte_offsets() {
    let src = "é fn ünïcode( a )";
    let start = src.find("fn ").unwrap() + 3;
    let (name, args) = parse_name_and_args_after_fn(src, start).unwrap();
    assert_eq!(name, "ünïcode");
    assert_eq!(args, "a");
}

#[test]
fn sql_name_override_reads_the_attribute() {
    assert_eq!(
        sql_name_override("x\n  #[sql_name = \"ST_Foo\"]\nfn foo()").as_deref(),
        Some("ST_Foo")
    );
    assert_eq!(sql_name_override("fn foo()"), None);
    assert_eq!(sql_name_override("#[sql_name]\n#[sql_name = \"B\"]"), None);
}

#[test]
fn identifiers_allow_only_word_characters() {
    assert_eq!(validate_identifier("cities_2024"), Some("cities_2024"));
    assert_eq!(validate_identifier(""), None);
    assert_eq!(validate_identifier("drop table"), None);
    assert_eq!(validate_identifier("x'; --"), None);
    assert_eq!(validate_identifier("café"), None);
}

use sqlitegis::surfaces::{
    callback_symbol, catalog_signatures, render_diesel_functions, render_sqlite_callbacks,
    SqliteFunctionSpec,
};

const CATALOG: &[SqliteFunctionSpec] = &[
    SqliteFunctionSpec { name: "ST_Area", n_arg: 1, xfunc_override: None },
    SqliteFunctionSpec { name: "ST_Distance", n_arg: 2, xfunc_override: None },
    SqliteFunctionSpec { name: "ST_MakePoint", n_arg: 3, xfunc_override: Some("st_point_3_cb") },
    SqliteFunctionSpec { name: "st_area", n_arg: 1, xfunc_override: None },
];

#[test]
fn catalog_signatures_upper_case_and_drop_repeats() {
    let sigs = catalog_signatures(CATALOG);
    assert_eq!(
        sigs,
        vec![
            ("ST_AREA".to_string(), 1),
            ("ST_DISTANCE".to_string(), 2),
            ("ST_MAKEPOINT".to_string(), 3),
        ]
    );
}

#[test]
fn diesel_functions_follow_catalog_order() {
    let template = "diesel::define_sql_function! { fn st_makepoint(x: D, y: D, s: I) -> B; }   \n\
diesel::define_sql_function! { fn st_area(g: B) -> D; }\n\
diesel::define_sql_function! {\n    #[sql_name = \"ST_Distance\"]\n    fn dist(a: B, b: B) -> D;\n}\n";
    let out = render_diesel_functions(template, CATALOG).unwrap();
    assert_eq!(
        out,
        "// @generated by `cargo run -p xtask -- gen-function-surfaces`\n\
// DO NOT EDIT BY HAND.\n\n\
diesel::define_sql_function! { fn st_area(g: B) -> D; }\n\n\
diesel::define_sql_function! {\n    #[sql_name = \"ST_Distance\"]\n    fn dist(a: B, b: B) -> D;\n}\n\n\
diesel::define_sql_function! { fn st_makepoint(x: D, y: D, s: I) -> B; }\n\n"
    );
}

#[test]
fn diesel_functions_report_inconsistencies() {
    let extra = "diesel::define_sql_function! { fn st_nope(g: B) -> D; }";
    assert_eq!(
        render_diesel_functions(extra, CATALOG).unwrap_err(),
        "diesel template declaration is not in canonical catalog: ST_NOPE(1)"
    );
    let partial = "diesel::define_sql_function! { fn st_area(g: B) -> D; }";
    assert_eq!(
        render_diesel_functions(partial, CATALOG).unwrap_err(),
        "diesel declaration missing for catalog function: ST_DISTANCE(2)"
    );
    assert_eq!(
        render_diesel_functions("diesel::define_sql_function! { fn x(", CATALOG).unwrap_err(),
        "unterminated diesel::define_sql_function! block in template"
    );
}

#[test]
fn callback_symbols() {
    let plain = SqliteFunctionSpec { name: "ST_Geom-From.Text", n_arg: 2, xfunc_override: None };
    assert_eq!(callback_symbol(&plain, false), "st_geomfromtext_xfunc");
    assert_eq!(callback_symbol(&plain, true), "st_geomfromtext_2_xfunc");
    assert_eq!(callback_symbol(&CATALOG[2], true), "st_point_3_cb");
}

#[test]
fn sqlite_callbacks_table() {
    let out = render_sqlite_callbacks("SQLITE_DETERMINISTIC_CALLBACKS", CATALOG);
    assert_eq!(
        out,
        "// @generated by `cargo run -p xtask -- gen-function-surfaces`\n\
// DO NOT EDIT BY HAND.\n\n\
const SQLITE_DETERMINISTIC_CALLBACKS: &[SqliteCallbackSpec] = &[\n\
\x20   callback_spec!(\"ST_Area\", 1, st_area_xfunc),\n\
\x20   callback_spec!(\"ST_Distance\", 2, st_distance_xfunc),\n\
\x20   callback_spec!(\"ST_MakePoint\", 3, st_point_3_cb),\n\
\x20   callback_spec!(\"st_area\", 1, st_area_xfunc),\n\
];\n"
    );
    let overloaded = [
        SqliteFunctionSpec { name: "ST_Point", n_arg: 2, xfunc_override: None },
        SqliteFunctionSpec { name: "ST_Point", n_arg: 3, xfunc_override: None },
    ];
    let out = render_sqlite_callbacks("C", &overloaded);
    assert!(out.contains("callback_spec!(\"ST_Point\", 2, st_point_2_xfunc)"));
    assert!(out.contains("callback_spec!(\"ST_Point\", 3, st_point_3_xfunc)"));
}

#[test]
fn an_empty_template_and_catalog_render_the_banner_alone() {
    assert_eq!(
        render_diesel_functions("", &[]).unwrap(),
        "// @generated by `cargo run -p xtask -- gen-function-surfaces`\n// DO NOT EDIT BY HAND.\n\n"
    );
}
