use farm_plugin_react_components::find_local_components::{
    find_local_components, ComponentInfo, ExportStatement, ExportType, SourceFile,
};
use farm_plugin_react_components::resolvers::{get_resolvers_result, ResolverOption};
use farm_plugin_react_components::generate_dts::{
    generate_dts, stringify_component, stringify_resolver, GenerateDtsOption,
};

fn component(name: &str, path: &str, export_type: ExportType, original_name: &str) -> ComponentInfo {
    ComponentInfo {
        name: name.to_string(),
        path: path.to_string(),
        export_type,
        original_name: original_name.to_string(),
        style: None,
    }
}

#[test]
fn resolver_line_names_the_exported_identifier() {
    let item = component("AntButton", "antd", ExportType::Named, "Button");
    assert_eq!(
        stringify_resolver(&item),
        "  const AntButton: typeof import('antd')['Button']\n"
    );
}

#[test]
fn resolver_line_of_a_default_export() {
    let item = component("Button", "some-lib/button", ExportType::Default, "Button");
    assert_eq!(
        stringify_resolver(&item),
        "  const Button: typeof import('some-lib/button')['default']\n"
    );
}

#[test]
fn component_line_is_relative_to_the_root_without_suffix() {
    let card = component("Card", "/project/src/components/Card.tsx", ExportType::Default, "Card");
    assert_eq!(
        stringify_component("/project", &card),
        "  const Card: typeof import('./src/components/Card')['default']\n"
    );
    let tag = component("Tag", "/project/src/components/Tag.jsx", ExportType::Named, "Tag");
    assert_eq!(
        stringify_component("/project/src", &tag),
        "  const Tag: typeof import('./components/Tag')['Tag']\n"
    );
}

#[test]
fn component_line_names_the_exported_identifier() {
    let item = component("badge", "/project/src/badge.tsx", ExportType::Named, "Badge");
    assert_eq!(
        stringify_component("/project/src", &item),
        "  const badge: typeof import('./badge')['Badge']\n"
    );
}

#[test]
fn component_line_outside_the_root_climbs() {
    let item = component("Card", "/shared/Card.tsx", ExportType::Default, "Card");
    assert_eq!(
        stringify_component("/project/app", &item),
        "  const Card: typeof import('./../../shared/Card')['default']\n"
    );
}

#[test]
fn component_line_keeps_other_suffixes() {
    let item = component("util", "/project/src/util.ts", ExportType::Default, "util");
    assert_eq!(
        stringify_component("/project", &item),
        "  const util: typeof import('./src/util.ts')['default']\n"
    );
}

#[test]
fn declaration_text_lists_local_then_resolver_components() {
    let card = component("Card", "/project/src/components/Card.tsx", ExportType::Default, "Card");
    let tag = component("Tag", "/project/src/components/Tag.tsx", ExportType::Named, "Tag");
    let button = component("AntButton", "antd", ExportType::Named, "Button");
    let components = vec![&card, &tag];
    let resolvers_components = vec![&button];
    let text = generate_dts(GenerateDtsOption {
        components: &components,
        resolvers_components: &resolvers_components,
        root_path: "/project".to_string(),
        filename: "components.d.ts".to_string(),
        local: true,
    });
    assert_eq!(
        text,
        "/* generated */\nexport {}\ndeclare global {\n\
         \x20 const Card: typeof import('./src/components/Card')['default']\n\
         \x20 const Tag: typeof import('./src/components/Tag')['Tag']\n\
         \x20 const AntButton: typeof import('antd')['Button']\n\
         }\n"
    );
}

#[test]
fn declaration_text_without_local_components() {
    let card = component("Card", "/project/src/components/Card.tsx", ExportType::Default, "Card");
    let button = component("AntButton", "antd", ExportType::Named, "Button");
    let components = vec![&card];
    let resolvers_components = vec![&button];
    let text = generate_dts(GenerateDtsOption {
        components: &components,
        resolvers_components: &resolvers_components,
        root_path: "relative/root".to_string(),
        filename: "components.d.ts".to_string(),
        local: false,
    });
    assert_eq!(
        text,
        "/* generated */\nexport {}\ndeclare global {\n\
         \x20 const AntButton: typeof import('antd')['Button']\n\
         }\n"
    );
}

#[test]
fn declaration_text_of_an_empty_index() {
    let components: Vec<&ComponentInfo> = vec![];
    let resolvers_components: Vec<&ComponentInfo> = vec![];
    let text = generate_dts(GenerateDtsOption {
        components: &components,
        resolvers_components: &resolvers_components,
        root_path: "/project".to_string(),
        filename: "components.d.ts".to_string(),
        local: true,
    });
    assert_eq!(text, "/* generated */\nexport {}\ndeclare global {\n}\n");
}

#[test]
fn declaration_text_is_the_same_on_every_run() {
    let card = component("Card", "/project/src/Card.tsx", ExportType::Default, "Card");
    let button = component("AntButton", "antd", ExportType::Named, "Button");
    let components = vec![&card];
    let resolvers_components = vec![&button];
    let first = generate_dts(GenerateDtsOption {
        components: &components,
        resolvers_components: &resolvers_components,
        root_path: "/project".to_string(),
        filename: "components.d.ts".to_string(),
        local: true,
    });
    let second = generate_dts(GenerateDtsOption {
        components: &components,
        resolvers_components: &resolvers_components,
        root_path: "/project".to_string(),
        filename: "other.d.ts".to_string(),
        local: true,
    });
    assert_eq!(first.as_bytes(), second.as_bytes());
}

#[test]
fn test_generate_dts() {
    let files = vec![
        SourceFile {
            path: "/playground/src/components/Card.tsx".to_string(),
            exports: vec![ExportStatement::Default],
        },
        SourceFile {
            path: "/playground/src/components/Tag.tsx".to_string(),
            exports: vec![ExportStatement::Named("Tag".to_string())],
        },
    ];
    let root_path = "/playground";
    let components = find_local_components(&files, &vec![], &vec![]);
    let resolvers = [ResolverOption {
        module: "antd".to_string(),
        export_type: Some(ExportType::Named),
        style: Some(false),
        exclude: None,
        includes: None,
        prefix: Some("Ant".to_string()),
    }];
    let resolvers_components =
        get_resolvers_result(&resolvers.to_vec(), &vec![vec!["Button".to_string()]]).unwrap();
    let generate_dts_option = GenerateDtsOption {
        components: &components.iter().collect::<Vec<_>>(),
        resolvers_components: &resolvers_components.iter().collect::<Vec<_>>(),
        root_path: root_path.to_string(),
        filename: "components.d.ts".to_string(),
        local: true,
    };
    let text = generate_dts(generate_dts_option);
    assert!(!components.is_empty(), "Components should not be empty");
    assert_eq!(
        text,
        "/* generated */\nexport {}\ndeclare global {\n\
         \x20 const Card: typeof import('./src/components/Card')['default']\n\
         \x20 const Tag: typeof import('./src/components/Tag')['Tag']\n\
         \x20 const AntButton: typeof import('antd')['Button']\n\
         }\n"
    );
}

#[test]
fn components_of_one_name_are_both_declared_in_index_order() {
    let first = component("Card", "/project/src/a/Card.tsx", ExportType::Default, "Card");
    let second = component("Card", "/project/src/b/Card.tsx", ExportType::Default, "Card");
    let third = component("Card", "cards", ExportType::Named, "Card");
    let components = vec![&first, &second];
    let resolvers_components = vec![&third];
    let text = generate_dts(GenerateDtsOption {
        components: &components,
        resolvers_components: &resolvers_components,
        root_path: "/project/src".to_string(),
        filename: "components.d.ts".to_string(),
        local: true,
    });
    assert_eq!(
        text,
        "/* generated */\nexport {}\ndeclare global {\n\
         \x20 const Card: typeof import('./a/Card')['default']\n\
         \x20 const Card: typeof import('./b/Card')['default']\n\
         \x20 const Card: typeof import('cards')['Card']\n\
         }\n"
    );
}
