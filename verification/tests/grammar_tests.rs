use oil::ast::{Item, NodeKind, RawPropertyOrInclude, StyleValue, SubPackage};
use oil::grammar::{ParseError, parse_grammar};
use oil::tok::ErrorCode;
use oil::style::{KwValue, kw_value_from_name, unit_from_name};

fn assert_err_code(text: &str, code: ErrorCode) {
    match parse_grammar(text) {
        Err(ParseError::User { error }) if error.code == code => {}
        other => panic!("expected {:?}, found {:?}", code, other),
    }
}

#[test]
fn test_error_unmatchintag_in_component_or_view() {
    let component = r#"component tmp = <test></tst>;"#;
    assert_err_code(component, ErrorCode::UnmatchingTag);
}

#[test]
fn test_error_import_img_or_font() {
    let import = r#"import img from './logo.png';"#;
    assert_err_code(import, ErrorCode::OnlyFontOrImg);
    let import = r#"import $other from './logo.png';"#;
    assert_err_code(import, ErrorCode::OnlyFontOrImg);
}

// Imports.
#[test]
fn test_oil_import_all() {
    parse_grammar(r#"import * from 'material-oil';"#).unwrap();
}

#[test]
fn test_oil_import_all_variant1() {
    parse_grammar(r#"import 'material-oil';"#).unwrap();
}

#[test]
fn test_oil_import_one() {
    parse_grammar(r#"import {btn} from 'material-oil';"#).unwrap();
}

#[test]
fn test_oil_import_some() {
    parse_grammar(r#"import {btn, prg, g1} from 'material-oil';"#).unwrap();
}

#[test]
fn test_oil_import_path1() {
    parse_grammar(r#"import './path/to/file1';"#).unwrap();
}

#[test]
fn test_oil_import_path2() {
    parse_grammar(r#"import '.././path/../path/to/./file1';"#).unwrap();
}

#[test]
fn test_oil_import_image1() {
    parse_grammar(r#"import $img from './logo.png';"#).unwrap();
}

#[test]
fn test_oil_import_image2() {
    parse_grammar(r#"import logo from './logo.png';"#).unwrap();
}

#[test]
fn test_oil_valid_module_import_that_look_like_image_import() {
    parse_grammar(r#"import {img} from './logo.png';"#).unwrap();
}

#[test]
fn test_oil_import_font() {
    parse_grammar(r#"import $font from 'material-oil';"#).unwrap();
}

#[test]
fn test_oil_import_font2() {
    parse_grammar(r#"import font from 'material-oil';"#).unwrap();
}

// Components.
#[test]
fn test_oil_basic_component_no_args() {
    parse_grammar("\n    component ui_el =\n        <el></el>;\n    ").unwrap();
}

#[test]
fn test_oil_basic_component_no_args1() {
    parse_grammar("\n    component ui_el [] =\n        <el></el>;\n    ").unwrap();
}

#[test]
fn test_oil_basic_component_unused_arg() {
    parse_grammar("\n    component ui_el [a] =\n        <el></el>;\n    ").unwrap();
}

#[test]
fn test_oil_basic_component_no_args_export() {
    parse_grammar("\n    export component ui_el =\n        <el></el>;\n    ").unwrap();
}

#[test]
fn test_oil_basic_component_with_args() {
    parse_grammar("\n    component ui_el [el_class] =\n        <el class=el_class></el>\n    ;")
        .unwrap();
}

#[test]
fn test_oil_basic_component_with_args_export() {
    parse_grammar(
        "\n    export component ui_el [el_class] =\n        <el class={.el_class;}></el>;\n    ",
    )
    .unwrap();
}

#[test]
fn test_oil_basic_component_with_args_return() {
    parse_grammar(
        "\n    component ui_el [el_class] -> event =\n        <el class={.el_class;} (click)={event}></el>;\n    ",
    )
    .unwrap();
}

#[test]
fn test_oil_basic_component_with_many_return() {
    parse_grammar(
        "\n    component ui_el [] -> (event, event2) =\n        <el class={.el_class;} (click)={event} (event)={event2}></el>;\n    ",
    )
    .unwrap();
}

#[test]
fn test_oil_component_with_text_child() {
    parse_grammar(
        "\n    export component ui_button [name] =\n        <button>Hello {{name}}</button>\n    ;",
    )
    .unwrap();
}

#[test]
fn test_oil_component_with_binding_dot_dot() {
    parse_grammar("\n    export component hello [player] =\n        Hello {{player.name}}!\n    ;")
        .unwrap();
}

#[test]
fn test_oil_component_with_binding_dot_dot_dot() {
    parse_grammar(
        "\n    export component window_info [settings] =\n        Screen ratio {{settings.window.ratio}}\n    ;",
    )
    .unwrap();
}

#[test]
fn test_oil_component_with_many_child() {
    parse_grammar(
        r#"
    export component ui_menu [game_name, btn_class] =
        <group>
            {{game_name}}
            <button class=btn_class>Play!</button>
            <button class={.btn_class;}>Settings</button>
            <button class={.btn_class;}>Quit</button>
        </group>
    ;"#,
    )
    .unwrap();
}

#[test]
fn test_oil_component_style_anonymous_class() {
    parse_grammar(
        r#"
    export component ui_menu [game, btn_class] =
        <group class={
            .dark_theme                 if game.dark_theme;
            width: 400                  if game.window.width > 300;
            width: game.window.width    if game.window.width <= 300;
            // The unit is inferred based on the property.
            height: game.window.height;
        }>
            {{game.name}}
            <button class={.btn_class;}>Play!</button>
            <button class={.btn_class;}>Settings</button>
            <button class={.btn_class;}>Quit</button>
        </group>
    ;"#,
    )
    .unwrap();
}

#[test]
fn test_oil_component_static_argument() {
    parse_grammar("\n    component ui_button =\n        <button [gotoview]={foo}></button>;\n    ")
        .unwrap();
}

#[test]
fn test_oil_component_object_argument_simple_expr() {
    parse_grammar("\n    component ui_button =\n        <el [arg1]={foo}></el>;\n    ").unwrap();
}

#[test]
fn test_oil_component_object_argument_complex_expr() {
    parse_grammar("\n    component ui_button =\n        <el [arg1]={foo + foo ^ 2}></el>;\n    ")
        .unwrap();
}

#[test]
fn test_oil_component_object_argument_property_renaming() {
    parse_grammar(
        r#"
    component ui_button =
        <el [arg1]={{settings: { foo: foo + foo ^ 2 }, bar: 23, test: "text"}}></el>;
    "#,
    )
    .unwrap();
}

#[test]
fn test_oil_component_object_crazy_nesting() {
    parse_grammar(
        r#"
    component something =
        <el [a]={{test: {
            aa: "foo",
            bb: 12 + 35
        }, test1: "set", test1: { crazy: "bar" } }}></el>;
    "#,
    )
    .unwrap();
}

#[test]
#[should_panic]
fn test_oil_component_invalid_arg_anonymous_class() {
    parse_grammar("\n    component ui_button =\n        <e [arg1]={foo @if b}></e>;\n    ")
        .unwrap();
}

#[test]
#[should_panic]
fn test_oil_component_not_matching() {
    parse_grammar("\n    component john_doe = <button></btton>;\n    ").unwrap();
}

#[test]
#[should_panic]
fn test_oil_component_not_matching2() {
    parse_grammar("\n    component john_doe = <button><button>;\n    ").unwrap();
}

#[test]
#[should_panic]
fn test_oil_component_wrong_nesting() {
    parse_grammar("\n    component john_doe = <button><group></button></group>;\n    ").unwrap();
}

#[test]
fn test_oil_component_no_keyword_in_component_or_view() {
    parse_grammar(r#"export component a01 = export;"#).unwrap();
    parse_grammar(r#"export component a01 = import;"#).unwrap();
    parse_grammar(r#"export component a01 = component;"#).unwrap();
    parse_grammar(r#"export component a01 = view;"#).unwrap();
}

#[test]
fn test_oil_component_text_node_edge_cases() {
    parse_grammar(r#"component a01 = +;"#).unwrap();
    parse_grammar(r#"component a02 = -;"#).unwrap();
    parse_grammar(r#"component a03 = &;"#).unwrap();
    parse_grammar(r#"component a04 = %;"#).unwrap();
    parse_grammar(r#"component a05 = ^;"#).unwrap();
    parse_grammar(r#"component a05 = !;"#).unwrap();
    parse_grammar(r#"component a05 = ?;"#).unwrap();
    parse_grammar(r#"component a05 = @;"#).unwrap();
    parse_grammar(r#"component a06 = *;"#).unwrap();
    parse_grammar(r#"component a07 = #;"#).unwrap();
    parse_grammar(r#"component a08 = ';"#).unwrap();
    parse_grammar(r#"component a09 = ";"#).unwrap();
    parse_grammar(r#"component a10 = $;"#).unwrap();
    parse_grammar(r#"component a11 = :;"#).unwrap();
    parse_grammar(r#"component a12 = .;"#).unwrap();
    parse_grammar(r#"component a13 = =;"#).unwrap();
    parse_grammar(r#"component a14 = [;"#).unwrap();
    parse_grammar(r#"component a15 = ];"#).unwrap();
    parse_grammar(r#"component a16 = (;"#).unwrap();
    parse_grammar(r#"component a17 = );"#).unwrap();
}

// Templates: the same forms through the template keyword.
#[test]
fn test_oil_basic_template_no_args() {
    parse_grammar("\n    template ui_el =\n        <el></el>;\n    ").unwrap();
}

#[test]
fn test_oil_basic_template_no_args1() {
    parse_grammar("\n    template ui_el [] =\n        <el></el>;\n    ").unwrap();
}

#[test]
fn test_oil_basic_template_unused_arg() {
    parse_grammar("\n    template ui_el [a] =\n        <el></el>;\n    ").unwrap();
}

#[test]
fn test_oil_basic_template_no_args_export() {
    parse_grammar("\n    export template ui_el =\n        <el></el>;\n    ").unwrap();
}

#[test]
fn test_oil_basic_template_with_args() {
    parse_grammar("\n    template ui_el [el_class] =\n        <el class=el_class></el>\n    ;")
        .unwrap();
}

#[test]
fn test_oil_basic_template_with_args_export() {
    parse_grammar(
        "\n    export template ui_el [el_class] =\n        <el class={.el_class;}></el>;\n    ",
    )
    .unwrap();
}

#[test]
fn test_oil_basic_template_with_args_return() {
    parse_grammar(
        "\n    template ui_el [el_class] -> event =\n        <el class={.el_class;} (click)={event}></el>;\n    ",
    )
    .unwrap();
}

#[test]
fn test_oil_basic_template_with_many_return() {
    parse_grammar(
        "\n    template ui_el [] -> (event, event2) =\n        <el class={.el_class;} (click)={event} (event)={event2}></el>;\n    ",
    )
    .unwrap();
}

#[test]
fn test_oil_template_with_text_child() {
    parse_grammar(
        "\n    export template ui_button [name] =\n        <button>Hello {{name}}</button>\n    ;",
    )
    .unwrap();
}

#[test]
fn test_oil_template_with_binding_dot_dot() {
    parse_grammar("\n    export template hello [player] =\n        Hello {{player.name}}!\n    ;")
        .unwrap();
}

#[test]
fn test_oil_template_with_binding_dot_dot_dot() {
    parse_grammar(
        "\n    export template window_info [settings] =\n        Screen ratio {{settings.window.ratio}}\n    ;",
    )
    .unwrap();
}

#[test]
fn test_oil_template_with_many_child() {
    parse_grammar(
        r#"
    export template ui_menu [game_name, btn_class] =
        <group>
            {{game_name}}
            <button class=btn_class>Play!</button>
            <button class={.btn_class;}>Settings</button>
            <button class={.btn_class;}>Quit</button>
        </group>
    ;"#,
    )
    .unwrap();
}

#[test]
fn test_oil_template_static_argument() {
    parse_grammar("\n    template ui_button =\n        <button [gotoview]={foo}></button>;\n    ")
        .unwrap();
}

#[test]
#[should_panic]
fn test_oil_template_not_matching() {
    parse_grammar("\n    template john_doe = <button></btton>;\n    ").unwrap();
}

#[test]
#[should_panic]
fn test_oil_template_not_matching2() {
    parse_grammar("\n    template john_doe = <button><button>;\n    ").unwrap();
}

#[test]
#[should_panic]
fn test_oil_template_wrong_nesting() {
    parse_grammar("\n    template john_doe = <button><group></button></group>;\n    ").unwrap();
}

#[test]
fn test_oil_template_no_keyword_in_template_or_view() {
    parse_grammar(r#"export template a01 = export;"#).unwrap();
    parse_grammar(r#"export template a01 = import;"#).unwrap();
    parse_grammar(r#"export template a01 = template;"#).unwrap();
    parse_grammar(r#"export template a01 = view;"#).unwrap();
}

#[test]
fn test_oil_template_text_node_edge_cases() {
    parse_grammar(r#"template a01 = +;"#).unwrap();
    parse_grammar(r#"template a02 = -;"#).unwrap();
    parse_grammar(r#"template a03 = &;"#).unwrap();
    parse_grammar(r#"template a04 = %;"#).unwrap();
    parse_grammar(r#"template a05 = ^;"#).unwrap();
    parse_grammar(r#"template a05 = !;"#).unwrap();
    parse_grammar(r#"template a05 = ?;"#).unwrap();
    parse_grammar(r#"template a05 = @;"#).unwrap();
    parse_grammar(r#"template a06 = *;"#).unwrap();
    parse_grammar(r#"template a07 = #;"#).unwrap();
    parse_grammar(r#"template a08 = ';"#).unwrap();
    parse_grammar(r#"template a09 = ";"#).unwrap();
    parse_grammar(r#"template a10 = $;"#).unwrap();
    parse_grammar(r#"template a11 = :;"#).unwrap();
    parse_grammar(r#"template a12 = .;"#).unwrap();
    parse_grammar(r#"template a13 = =;"#).unwrap();
    parse_grammar(r#"template a14 = [;"#).unwrap();
    parse_grammar(r#"template a15 = ];"#).unwrap();
    parse_grammar(r#"template a16 = (;"#).unwrap();
    parse_grammar(r#"template a17 = );"#).unwrap();
}

// Views.
#[test]
fn test_oil_view() {
    parse_grammar(
        "\n    view my_view =\n        <app [name]={store.name} (start)={reducers.start}></app>\n    ;\n    ",
    )
    .unwrap();
}

#[test]
fn test_oil_view2() {
    parse_grammar(
        "\n    view my_view =\n        <app [name]={store.name} (start)={reducers.start}></app>\n    ;\n    ",
    )
    .unwrap();
}

#[test]
#[should_panic]
fn test_oil_invalid_view_missing_body() {
    parse_grammar("\n    view my_view = ;\n    ").unwrap();
}

// Style classes.
#[test]
fn test_oil_style_class_def() {
    parse_grammar("\n    .some_class {\n    }\n    ").unwrap();
}

#[test]
#[should_panic]
fn test_oil_style_invalid_class_def() {
    parse_grammar(r#".some-class {}"#).unwrap();
}

#[test]
fn test_oil_style_class_def_with_empty_args() {
    parse_grammar(r#".some_class () {}"#).unwrap();
}

#[test]
fn test_oil_style_class_def_with_one_arg() {
    parse_grammar(r#".some_class (a) {}"#).unwrap();
}

#[test]
fn test_oil_style_class_def_with_many_args() {
    parse_grammar(r#".some_class (a, b, c) {}"#).unwrap();
}

#[test]
fn test_oil_style_class_def_with_arg_used_as_property() {
    parse_grammar(r#".some_class (a) {}"#).unwrap();
}

#[test]
fn test_oil_style_class_def_condition_eq() {
    parse_grammar(r#".a { .b() if c == d; }"#).unwrap();
}

#[test]
fn test_oil_style_class_def_condition_neq() {
    parse_grammar(r#".a { .b() if c != d; }"#).unwrap();
}

#[test]
fn test_oil_style_class_def_condition_and() {
    parse_grammar(r#".a { .b() if c && d; }"#).unwrap();
}

#[test]
fn test_oil_style_class_def_condition_or() {
    parse_grammar(r#".a { .b if c || d; }"#).unwrap();
}

#[test]
fn test_oil_style_class_def_condition_many1() {
    parse_grammar(r#".a { .b if (c || d) && d; }"#).unwrap();
}

#[test]
fn test_oil_style_class_def_condition_many2() {
    parse_grammar(r#".a { .b if c || (d && d); }"#).unwrap();
}

#[test]
fn test_oil_style_class_def_conditionally_include() {
    parse_grammar(".some_class (a, b) {\n        .other_class if a == b;\n    }").unwrap();
}

#[test]
fn test_oil_style_class_def_conditionally_include2() {
    parse_grammar(".some_class (a, b) {\n        .other_class(fit, rtl) if a == b;\n    }")
        .unwrap();
}

#[test]
fn test_oil_style_class_def_conditionally_properties() {
    parse_grammar(
        ".some_class (a, b) {\n        background_color: #FFFFFF if a;\n        background_image: $img    if b;\n    }",
    )
    .unwrap();
}

#[test]
fn test_oil_style_hexadecimal_value() {
    parse_grammar(
        "\n    .some_class {\n        background_color: #FF0A0E;\n        background_color: #ffffff;\n    }\n    ",
    )
    .unwrap();
}

#[test]
#[should_panic]
fn test_oil_style_invalid_hexadecimal_value() {
    parse_grammar("\n    .some_class {\n        background_color: #+FF0A0E;\n    }\n    ")
        .unwrap();
}

#[test]
fn test_oil_style_properties() {
    parse_grammar(
        "\n    .btn {\n        width: 100px;\n        height: 40px;\n        background_image: $img;\n        font: $font;\n    }\n    ",
    )
    .unwrap();
}

#[test]
fn test_oil_style_sub_img_explicit() {
    parse_grammar(
        "\n    .btn {\n        background_image: $img[x: 0, y: 172, w: 400, h: 40];\n    }\n    ",
    )
    .unwrap();
}

#[test]
fn test_oil_style_sub_img_implicit() {
    parse_grammar("\n    .btn {\n        background_image: $img[0, 172, 400, 40];\n    }\n    ")
        .unwrap();
}

#[test]
fn test_oil_style_expression_in_properties() {
    parse_grammar(
        ".expressions(a) {\n        margin_x: a.mx / 2 px;\n        margin_y: (a.my + 34) / 4 px;\n        // Several offsets.\n        x: 0 px     if a.ox + 1 > 23;\n        x: a.mx / 2 if a.other;\n    }",
    )
    .unwrap();
}

#[test]
fn test_oil_style_keywords() {
    parse_grammar(".kwds(a) {\n        width: \"auto\" if a;\n        margin: \"expand\" if b;\n    }")
        .unwrap();
}

#[test]
#[should_panic]
fn test_oil_style_incorrect_property() {
    parse_grammar("\n    .some_class {\n        width: 100px\n    }\n    ").unwrap();
}

#[test]
#[should_panic]
fn test_oil_style_incorrect_class_def1() {
    parse_grammar("\n    . some_class {\n    }\n    ").unwrap();
}

#[test]
#[should_panic]
fn test_oil_style_incorrect_class_def2() {
    parse_grammar("\n    .$img {\n    }\n    ").unwrap();
}

// Mixed content.
#[test]
fn test_mixed_style_component() {
    parse_grammar(
        r#"
    // Here material-oil is one file.
    import {progress_bar} from 'material-oil';
    import {logo} from 'material-oil';

    // This class is local to the file.
    .local_class {
      background_color: #FFFFFF;
    }

    // This component is local to this class.
    component local_btn = <button class=local_class><select:children /></button>;

    // ui_element can be used elsewhere.
    export component ui_element [name, progress] =
      <group>
        <local_btn>Hello {{name}}</local_btn>
        <d>
          <progress_bar [value]={progress}></progress_bar>
          <logo></logo>
        </d>
      </group>;
    "#,
    )
    .unwrap();
}

// Queries.
#[test]
fn test_query_select_children() {
    let package = parse_grammar(r#"component c = <select:children />;"#).unwrap();
    match &package.items[0] {
        Item::Component(c) => match &c.body {
            oil::ast::ComponentBody::SingleNode(node) => {
                assert!(matches!(node.kind, NodeKind::Query { .. }));
            }
            other => panic!("unexpected body {:?}", other),
        },
        other => panic!("unexpected item {:?}", other),
    }
}

#[test]
fn test_query_errors() {
    assert_err_code(r#"component tmp = <why:we/>;"#, ErrorCode::InvalidSelect);
    assert_err_code(r#"component tmp = <select:we/>;"#, ErrorCode::InvalidQuery);
}

#[test]
fn test_invalid_unit_is_reported() {
    assert_err_code(".a { width: 10 em; }", ErrorCode::InvalidUnit);
}

#[test]
fn test_invalid_crop_is_reported() {
    assert_err_code(".a { background_image: $img[1, 2, 3, 4, 5]; }", ErrorCode::InvalidRange);
    assert_err_code(".a { background_image: $img[q: 1]; }", ErrorCode::InvalidRange);
}

// Datatype declarations.
#[test]
fn test_data_test_model_decl_as_strlit() {
    parse_grammar(r#"datatype ConstantModel = "test";"#).unwrap();
}

#[test]
fn test_data_test_model_decl_as_alias() {
    parse_grammar(r#"datatype AliasModel = OtherModel;"#).unwrap();
}

#[test]
fn test_data_test_model_decl_as_object() {
    parse_grammar(r#"datatype MapModel = { a : { b: "test", c: 23 + 3 ^ 2}};"#).unwrap();
}

#[test]
fn test_data_test_model_decl_as_alias_2() {
    parse_grammar(r#"datatype SubModel = new OtherModel;"#).unwrap();
}

#[test]
fn test_data_test_model_decl_with_submodel() {
    parse_grammar(r#"datatype Test = { a: new OtherModel };"#).unwrap();
}

#[test]
fn test_model_use_in_template() {
    parse_grammar(
        "\n    datatype Test(a) = { a: a };\n    template test = <el [arg1]={new Test(\"test\")}></el>;\n    ",
    )
    .unwrap();
}

#[test]
fn test_model_test_model_decl_as_strlit() {
    parse_grammar(r#"datatype ConstantModel = "test";"#).unwrap();
}

#[test]
fn test_model_test_model_decl_as_alias() {
    parse_grammar(r#"datatype AliasModel = OtherModel;"#).unwrap();
}

#[test]
fn test_model_test_model_decl_as_object() {
    parse_grammar(r#"datatype MapModel = { a : { b: "test", c: 23 + 3 ^ 2}};"#).unwrap();
}

#[test]
fn test_model_test_model_decl_as_alias_2() {
    parse_grammar(r#"datatype SubModel = new OtherModel;"#).unwrap();
}

#[test]
fn test_model_test_model_decl_with_submodel() {
    parse_grammar(r#"datatype Test = { a: new OtherModel };"#).unwrap();
}

// Constant bindings.
#[test]
fn test_variable_decl_as_strlit() {
    parse_grammar(r#"let v = "test";"#).unwrap();
}

#[test]
fn test_variable_decl_as_alias() {
    parse_grammar(r#"let v = foobar;"#).unwrap();
}

#[test]
fn test_variable_decl_as_object() {
    parse_grammar(r#"let v = { a : { b: "test", c: 23 + 3 ^ 2}};"#).unwrap();
}

// Structure of the produced tree.
#[test]
fn test_ast_import_should_contain_path() {
    let package = parse_grammar(r#"import * from 'material-oil';"#).unwrap();
    assert_eq!(
        package.imports[0].package,
        SubPackage::UnresolvedPath("material-oil".to_string())
    );
}

#[test]
fn test_ast_import_should_contain_path2() {
    let package = parse_grammar(r#"import $img from './logo.png';"#).unwrap();
    assert_eq!(
        package.imports[0].package,
        SubPackage::UnresolvedPath("./logo.png".to_string())
    );
}

#[test]
fn test_ast_package_should_collect_all_import() {
    let many_imports = "import * from 'a'; import 'b';\n     import $font from './somewhere/to/font.otf';";
    let package = parse_grammar(many_imports).unwrap();
    assert_eq!(package.imports.len(), 3);
}

#[test]
fn test_ast_component_with_text_child() {
    let package = parse_grammar(r#"component test = Hello!;"#).unwrap();
    assert_eq!(package.items.len(), 1);
    match &package.items[0] {
        Item::Component(component) => {
            assert_eq!(component.exported, false);
            assert_eq!(component.name.name, "test");
            assert_eq!(component.arguments.len(), 0);
            assert_eq!(component.events.len(), 0);
            match &component.body {
                oil::ast::ComponentBody::SingleNode(node) => match &node.kind {
                    NodeKind::Text { content } => assert_eq!(content, "Hello!"),
                    other => panic!("unexpected node {:?}", other),
                },
                other => panic!("unexpected body {:?}", other),
            }
        }
        other => panic!("unexpected item {:?}", other),
    }
}

#[test]
fn test_ast_style_should_have_name_without_dot() {
    let package = parse_grammar(r#".some_class {}"#).unwrap();
    assert_eq!(package.items.len(), 1);
    match &package.items[0] {
        Item::Class(class) => assert_eq!(class.name.name, "some_class"),
        other => panic!("unexpected item {:?}", other),
    }
}

#[test]
fn test_ast_style_should_be_unspecified() {
    let package = parse_grammar(
        r#".some_class {
        prop1: a.b if c;
        prop2: a.b px;
        prop3: a.b px if c > 3;
        prop4: 0.3;
        .inclusion_of_another_class;
        prop5: "auto";
        prop6: #FFaa4422;
        prop7: a.b.c > 1;
        prop8: some_img; // but not recognised as such
        prop9: some_img[1, 2, 3, 4];
        prop10: some_img[];
    }"#,
    )
    .unwrap();
    match &package.items[0] {
        Item::Class(class) => {
            let mut iter = class.properties.iter();
            match iter.next().unwrap() {
                RawPropertyOrInclude::RawProperty(_, p) => {
                    assert!(matches!(p.prop, StyleValue::Unspecified(_)));
                    assert!(p.cond.is_some());
                }
                other => panic!("Wrong prop1: {:?}", other),
            }
            match iter.next().unwrap() {
                RawPropertyOrInclude::RawProperty(_, p) => {
                    assert!(matches!(p.prop, StyleValue::Length(..)));
                }
                other => panic!("Wrong prop2: {:?}", other),
            }
            match iter.next().unwrap() {
                RawPropertyOrInclude::RawProperty(_, p) => {
                    assert!(matches!(p.prop, StyleValue::Length(..)));
                    assert!(p.cond.is_some());
                }
                other => panic!("Wrong prop3: {:?}", other),
            }
            match iter.next().unwrap() {
                RawPropertyOrInclude::RawProperty(_, p) => {
                    assert!(matches!(p.prop, StyleValue::Unspecified(_)));
                }
                other => panic!("Wrong prop4: {:?}", other),
            }
            match iter.next().unwrap() {
                RawPropertyOrInclude::Include(inclu) => {
                    assert_eq!(inclu.incl.name.name, "inclusion_of_another_class");
                }
                other => panic!("Wrong inclusion: {:?}", other),
            }
            match iter.next().unwrap() {
                RawPropertyOrInclude::RawProperty(_, p) => {
                    assert!(matches!(p.prop, StyleValue::Keyword(_)));
                }
                other => panic!("Wrong prop5: {:?}", other),
            }
            match iter.next().unwrap() {
                RawPropertyOrInclude::RawProperty(_, p) => {
                    assert!(matches!(p.prop, StyleValue::Hex(_)));
                }
                other => panic!("Wrong prop6: {:?}", other),
            }
            match iter.next().unwrap() {
                RawPropertyOrInclude::RawProperty(_, p) => {
                    assert!(matches!(p.prop, StyleValue::Unspecified(_)));
                }
                other => panic!("Wrong prop7: {:?}", other),
            }
            match iter.next().unwrap() {
                RawPropertyOrInclude::RawProperty(_, p) => {
                    assert!(matches!(p.prop, StyleValue::Unspecified(_)));
                }
                other => panic!("Wrong prop8: {:?}", other),
            }
            match iter.next().unwrap() {
                RawPropertyOrInclude::RawProperty(_, p) => {
                    assert!(matches!(p.prop, StyleValue::Img { .. }));
                }
                other => panic!("Wrong prop9: {:?}", other),
            }
            match iter.next().unwrap() {
                RawPropertyOrInclude::RawProperty(_, p) => {
                    assert!(matches!(p.prop, StyleValue::Img { .. }));
                }
                other => panic!("Wrong prop10: {:?}", other),
            }
        }
        other => panic!("Class couldn't be found: {:?}", other),
    }
}

#[test]
fn test_unexpected_end_is_reported() {
    assert!(matches!(
        parse_grammar("import"),
        Err(ParseError::UnexpectedEnd)
    ));
}

#[test]
fn test_style_keyword_table() {
    assert_eq!(kw_value_from_name(&"auto".to_string()), Some(KwValue::Auto));
    assert_eq!(kw_value_from_name(&"expand".to_string()), Some(KwValue::Expand));
    assert_eq!(kw_value_from_name(&"absolute".to_string()), Some(KwValue::Absolute));
    assert_eq!(kw_value_from_name(&"fit".to_string()), Some(KwValue::Fit));
    assert_eq!(kw_value_from_name(&"repeat".to_string()), Some(KwValue::Repeat));
    assert_eq!(kw_value_from_name(&"other".to_string()), None);
    assert_eq!(unit_from_name(&"px".to_string()), Some(oil::style::Unit::Px));
    assert_eq!(unit_from_name(&"em".to_string()), None);
}
