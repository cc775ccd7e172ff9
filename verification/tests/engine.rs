use rifgen::builder::FatalError;
use rifgen::Generator;
use rifgen::Language;
use rifgen::SourceFile;
use rifgen::TypeCases;

fn file(path: &str, content: &str) -> SourceFile {
    SourceFile { path: path.to_string(), content: content.to_string() }
}

#[test]
fn empty_input_renders_empty_document() {
    let g = Generator::new(TypeCases::Default, Language::Java);
    let files: Vec<SourceFile> = Vec::new();
    let out = g.generate_interface(&files).unwrap();
    assert_eq!(out.text, "");
    assert_eq!(out.issues.len(), 0);
}

#[test]
fn unmarked_items_render_empty_document() {
    let g = Generator::new(TypeCases::CamelCase, Language::Java);
    let files = vec![file(
        "plain.rs",
        "struct Foo {\n    data: i32\n}\n\nimpl Foo {\n    fn hidden(&self) -> i32 {\n        self.data\n    }\n}\n",
    )];
    let out = g.generate_interface(&files).unwrap();
    assert_eq!(out.text, "");
    assert_eq!(out.issues.len(), 0);
}

#[test]
fn constructor_and_method_build_one_class() {
    let g = Generator::new(TypeCases::CamelCase, Language::Java);
    let files = vec![file(
        "foo.rs",
        "struct Foo {\n    data: i32\n}\n\nimpl Foo {\n    #[generate_interface(constructor)]\n    fn new(val: i32) -> Foo {\n        Foo { data: val }\n    }\n\n    #[generate_interface]\n    fn f(&self, a: i32, b: i32) -> i32 {\n        self.data + a + b\n    }\n}\n",
    )];
    let out = g.generate_interface(&files).unwrap();
    assert_eq!(
        out.text,
        "foreign_class!(class Foo {\n    self_type Foo;\n    constructor Foo::new(_: i32) -> Foo;\n    fn Foo::f(&self, _: i32, _: i32) -> i32;\n});\n"
    );
    assert_eq!(out.issues.len(), 0);
}

#[test]
fn camel_case_removes_underscores() {
    let g = Generator::new(TypeCases::CamelCase, Language::Java);
    let files = vec![file(
        "foo.rs",
        "impl Foo {\n    #[generate_interface]\n    fn set_field_value(&mut self, v: i32) {\n        self.v = v;\n    }\n}\n",
    )];
    let out = g.generate_interface(&files).unwrap();
    assert_eq!(
        out.text,
        "foreign_class!(class Foo {\n    self_type Foo;\n    fn Foo::setFieldValue(&mut self, _: i32);\n});\n"
    );
}

#[test]
fn snake_case_inserts_underscores() {
    let g = Generator::new(TypeCases::SnakeCase, Language::Java);
    let files = vec![file(
        "foo.rs",
        "impl Foo {\n    #[generate_interface]\n    fn setFieldValue(&mut self, v: i32) {\n        self.v = v;\n    }\n}\n",
    )];
    let out = g.generate_interface(&files).unwrap();
    assert_eq!(
        out.text,
        "foreign_class!(class Foo {\n    self_type Foo;\n    fn Foo::set_field_value(&mut self, _: i32);\n});\n"
    );
}

#[test]
fn default_case_keeps_names_byte_identical() {
    let g = Generator::new(TypeCases::Default, Language::Java);
    let files = vec![file(
        "foo.rs",
        "impl Foo {\n    #[generate_interface]\n    fn set_Field(&self) {\n    }\n}\n",
    )];
    let out = g.generate_interface(&files).unwrap();
    assert_eq!(
        out.text,
        "foreign_class!(class Foo {\n    self_type Foo;\n    fn Foo::set_Field(&self);\n});\n"
    );
}

#[test]
fn methods_from_two_files_merge_in_order() {
    let g = Generator::new(TypeCases::Default, Language::Java);
    let files = vec![
        file(
            "a.rs",
            "impl Foo {\n    #[generate_interface]\n    fn alpha(&self) {\n    }\n}\n",
        ),
        file(
            "b.rs",
            "impl Foo {\n    #[generate_interface]\n    fn beta(&self) {\n    }\n}\n",
        ),
    ];
    let out = g.generate_interface(&files).unwrap();
    assert_eq!(
        out.text,
        "foreign_class!(class Foo {\n    self_type Foo;\n    fn Foo::alpha(&self);\n    fn Foo::beta(&self);\n});\n"
    );
}

#[test]
fn doc_lines_are_preserved_verbatim_above_the_class() {
    let g = Generator::new(TypeCases::Default, Language::Java);
    let files = vec![file(
        "foo.rs",
        "///Data holder\n///second line, kept verbatim\n#[generate_interface_doc]\nstruct Foo {\n    data: i32\n}\n\nimpl Foo {\n    #[generate_interface]\n    fn get(&self) -> i32 {\n        self.data\n    }\n}\n",
    )];
    let out = g.generate_interface(&files).unwrap();
    assert_eq!(
        out.text,
        "///Data holder\n///second line, kept verbatim\nforeign_class!(class Foo {\n    self_type Foo;\n    fn Foo::get(&self) -> i32;\n});\n"
    );
}

#[test]
fn method_doc_comment_rides_above_its_clause() {
    let g = Generator::new(TypeCases::Default, Language::Java);
    let files = vec![file(
        "foo.rs",
        "impl Foo {\n    ///Custom doc comment\n    #[generate_interface]\n    fn set_field(&mut self, v: i32) {\n        self.data = v;\n    }\n}\n",
    )];
    let out = g.generate_interface(&files).unwrap();
    assert_eq!(
        out.text,
        "foreign_class!(class Foo {\n    self_type Foo;\n    ///Custom doc comment\n    fn Foo::set_field(&mut self, _: i32);\n});\n"
    );
}

#[test]
fn engine_runs_are_deterministic() {
    let g = Generator::new(TypeCases::CamelCase, Language::Cpp);
    let files = vec![file(
        "foo.rs",
        "impl Foo {\n    #[generate_interface]\n    fn do_thing(&self, s: String) -> String {\n        s\n    }\n}\n\n#[generate_interface]\nenum Mode {\n    FastPath,\n    SlowPath,\n}\n",
    )];
    let first = g.generate_interface(&files).unwrap();
    let second = g.generate_interface(&files).unwrap();
    assert_eq!(first.text, second.text);
    assert_eq!(first.issues.len(), second.issues.len());
}

#[test]
fn constructor_marker_with_receiver_is_rejected() {
    let g = Generator::new(TypeCases::Default, Language::Java);
    let files = vec![file(
        "foo.rs",
        "impl Foo {\n    #[generate_interface(constructor)]\n    fn bad(&self) -> Foo {\n    }\n\n    #[generate_interface]\n    fn good(&self) {\n    }\n}\n",
    )];
    let out = g.generate_interface(&files).unwrap();
    assert_eq!(out.issues.len(), 1);
    assert_eq!(out.issues[0].path, "foo.rs");
    assert_eq!(out.issues[0].message, "constructor marker on a method with a receiver");
    assert_eq!(
        out.text,
        "foreign_class!(class Foo {\n    self_type Foo;\n    fn Foo::good(&self);\n});\n"
    );
}

#[test]
fn trait_exports_every_signature() {
    let g = Generator::new(TypeCases::CamelCase, Language::Java);
    let files = vec![file(
        "cb.rs",
        "///MyCallback documentation\n#[generate_interface]\ntrait MyCallback {\n    fn on_click(&self);\n    fn on_close(&self, code: i32) -> bool;\n}\n",
    )];
    let out = g.generate_interface(&files).unwrap();
    assert_eq!(
        out.text,
        "///MyCallback documentation\nforeign_callback!(callback MyCallback {\n    self_type MyCallback;\n    fn MyCallback::onClick(&self);\n    fn MyCallback::onClose(&self, _: i32) -> bool;\n});\n"
    );
}

#[test]
fn enum_exports_every_variant() {
    let g = Generator::new(TypeCases::Default, Language::Java);
    let files = vec![file(
        "e.rs",
        "#[generate_interface]\nenum MyEnum {\n    One,\n    Two,\n}\n",
    )];
    let out = g.generate_interface(&files).unwrap();
    assert_eq!(out.text, "foreign_enum!(enum MyEnum {\n    One,\n    Two,\n});\n");
}

#[test]
fn snake_case_applies_to_enum_variants() {
    let g = Generator::new(TypeCases::SnakeCase, Language::Java);
    let files = vec![file(
        "e.rs",
        "#[generate_interface]\nenum MyEnum {\n    FastPath,\n    SlowPath,\n}\n",
    )];
    let out = g.generate_interface(&files).unwrap();
    assert_eq!(out.text, "foreign_enum!(enum MyEnum {\n    fast_path,\n    slow_path,\n});\n");
}

#[test]
fn cpp_dialect_maps_the_string_type() {
    let g = Generator::new(TypeCases::Default, Language::Cpp);
    let files = vec![file(
        "foo.rs",
        "impl Foo {\n    #[generate_interface]\n    fn set_name(&mut self, name: String) {\n    }\n}\n",
    )];
    let out = g.generate_interface(&files).unwrap();
    assert_eq!(
        out.text,
        "foreign_class!(class Foo {\n    self_type Foo;\n    fn Foo::set_name(&mut self, _: std::string);\n});\n"
    );
}

#[test]
fn java_dialect_keeps_the_string_type_name() {
    let g = Generator::new(TypeCases::Default, Language::Java);
    let files = vec![file(
        "foo.rs",
        "impl Foo {\n    #[generate_interface]\n    fn set_name(&mut self, name: String) {\n    }\n}\n",
    )];
    let out = g.generate_interface(&files).unwrap();
    assert_eq!(
        out.text,
        "foreign_class!(class Foo {\n    self_type Foo;\n    fn Foo::set_name(&mut self, _: String);\n});\n"
    );
}

#[test]
fn static_method_renders_without_receiver() {
    let g = Generator::new(TypeCases::Default, Language::Java);
    let files = vec![file(
        "foo.rs",
        "impl Foo {\n    #[generate_interface]\n    fn count(limit: i32) -> i32 {\n        limit\n    }\n}\n",
    )];
    let out = g.generate_interface(&files).unwrap();
    assert_eq!(
        out.text,
        "foreign_class!(class Foo {\n    self_type Foo;\n    fn Foo::count(_: i32) -> i32;\n});\n"
    );
}

#[test]
fn class_and_enum_name_collision_is_fatal() {
    let g = Generator::new(TypeCases::Default, Language::Java);
    let files = vec![file(
        "foo.rs",
        "impl Foo {\n    #[generate_interface]\n    fn get(&self) {\n    }\n}\n\n#[generate_interface]\nenum Foo {\n    One,\n}\n",
    )];
    let err = g.generate_interface(&files).unwrap_err();
    match err {
        FatalError::NameCollision(name) => assert_eq!(name, "Foo"),
        _ => panic!("expected a name collision"),
    }
}

#[test]
fn duplicate_constructor_names_are_fatal() {
    let g = Generator::new(TypeCases::Default, Language::Java);
    let files = vec![file(
        "foo.rs",
        "impl Foo {\n    #[generate_interface(constructor)]\n    fn create() -> Foo {\n    }\n\n    #[generate_interface(constructor)]\n    fn create() -> Foo {\n    }\n}\n",
    )];
    let err = g.generate_interface(&files).unwrap_err();
    match err {
        FatalError::DuplicateConstructor(name) => assert_eq!(name, "create"),
        _ => panic!("expected a duplicate-constructor error"),
    }
}

#[test]
fn run_with_every_file_unparsable_is_fatal() {
    let g = Generator::new(TypeCases::Default, Language::Java);
    let files = vec![file("bad.rs", "}\n")];
    let err = g.generate_interface(&files).unwrap_err();
    match err {
        FatalError::NoParsableInput => {},
        _ => panic!("expected the no-parsable-input error"),
    }
}

#[test]
fn one_unparsable_file_is_reported_and_skipped() {
    let g = Generator::new(TypeCases::Default, Language::Java);
    let files = vec![
        file("bad.rs", "}\n"),
        file(
            "good.rs",
            "impl Foo {\n    #[generate_interface]\n    fn get(&self) {\n    }\n}\n",
        ),
    ];
    let out = g.generate_interface(&files).unwrap();
    assert_eq!(out.issues.len(), 1);
    assert_eq!(out.issues[0].path, "bad.rs");
    assert_eq!(out.issues[0].message, "file could not be parsed");
    assert_eq!(
        out.text,
        "foreign_class!(class Foo {\n    self_type Foo;\n    fn Foo::get(&self);\n});\n"
    );
}

#[test]
fn classes_precede_traits_and_enums() {
    let g = Generator::new(TypeCases::Default, Language::Java);
    let files = vec![file(
        "all.rs",
        "#[generate_interface]\nenum Mode {\n    On,\n}\n\n#[generate_interface]\ntrait Watcher {\n    fn ping(&self);\n}\n\nimpl Foo {\n    #[generate_interface]\n    fn get(&self) {\n    }\n}\n",
    )];
    let out = g.generate_interface(&files).unwrap();
    assert_eq!(
        out.text,
        "foreign_class!(class Foo {\n    self_type Foo;\n    fn Foo::get(&self);\n});\nforeign_callback!(callback Watcher {\n    self_type Watcher;\n    fn Watcher::ping(&self);\n});\nforeign_enum!(enum Mode {\n    On,\n});\n"
    );
}

#[test]
fn by_value_receiver_renders_as_self() {
    let g = Generator::new(TypeCases::Default, Language::Java);
    let files = vec![file(
        "foo.rs",
        "impl Foo {\n    #[generate_interface]\n    fn consume(self, tag: i32) {\n    }\n}\n",
    )];
    let out = g.generate_interface(&files).unwrap();
    assert_eq!(
        out.text,
        "foreign_class!(class Foo {\n    self_type Foo;\n    fn Foo::consume(self, _: i32);\n});\n"
    );
}

#[test]
fn commas_inside_generics_do_not_split_parameters() {
    let g = Generator::new(TypeCases::Default, Language::Java);
    let files = vec![file(
        "foo.rs",
        "impl Foo {\n    #[generate_interface]\n    fn put(&mut self, pair: Pair<i32, bool>) {\n    }\n}\n",
    )];
    let out = g.generate_interface(&files).unwrap();
    assert_eq!(
        out.text,
        "foreign_class!(class Foo {\n    self_type Foo;\n    fn Foo::put(&mut self, _: Pair<i32, bool>);\n});\n"
    );
}

#[test]
fn doc_only_struct_without_members_is_omitted() {
    let g = Generator::new(TypeCases::Default, Language::Java);
    let files = vec![file(
        "foo.rs",
        "///Lonely\n#[generate_interface_doc]\nstruct Foo {\n    data: i32\n}\n",
    )];
    let out = g.generate_interface(&files).unwrap();
    assert_eq!(out.text, "");
    assert_eq!(out.issues.len(), 0);
}
