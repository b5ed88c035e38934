use farm_plugin_react_components::component_index::ComponentIndex;
use farm_plugin_react_components::find_local_components::{
    find_local_components, ComponentInfo, ExportStatement, ExportType, SourceFile,
};
use farm_plugin_react_components::insert_import::{collect_imports, transform as rewrite};
use farm_plugin_react_components::resolvers::{get_resolvers_result, ResolverOption};

fn names(list: &[&str]) -> Vec<String> {
    list.iter().map(|s| s.to_string()).collect()
}

fn local(name: &str, path: &str, export_type: ExportType, original_name: &str) -> ComponentInfo {
    ComponentInfo {
        name: name.to_string(),
        path: path.to_string(),
        export_type,
        original_name: original_name.to_string(),
        style: None,
    }
}

fn library(name: &str, module: &str, original_name: &str, style: Option<&str>) -> ComponentInfo {
    ComponentInfo {
        name: name.to_string(),
        path: module.to_string(),
        export_type: ExportType::Named,
        original_name: original_name.to_string(),
        style: style.map(|s| s.to_string()),
    }
}

fn project() -> ComponentIndex {
    ComponentIndex {
        local: vec![
            local("Card", "/project/src/Card.tsx", ExportType::Default, "Card"),
            local("Tag", "/project/src/components/Tag.tsx", ExportType::Named, "Tag"),
        ],
        resolvers: vec![
            library("AntButton", "antd", "Button", Some("antd/style")),
            library("AntInput", "antd", "Input", Some("antd/style")),
            library("Card", "cards", "Card", None),
        ],
    }
}

#[test]
fn import_is_prepended_for_an_unresolved_usage() {
    let index = ComponentIndex {
        local: vec![local("Card", "/project/src/Card.tsx", ExportType::Default, "Card")],
        resolvers: vec![],
    };
    let out = rewrite(
        "const x = <Card/>",
        "/project/src/main.tsx",
        &names(&["Card"]),
        &vec![],
        &index,
    );
    assert_eq!(out, Some("import Card from './Card'\nconst x = <Card/>".to_string()));
}

#[test]
fn only_usage_of_a_local_component_gets_one_import_line() {
    let source = "export function App() {\n  return <Tag color=\"red\" />\n}\n";
    let out = rewrite(source, "/project/src/pages/App.tsx", &names(&["Tag"]), &names(&["App"]), &project())
        .unwrap();
    assert_eq!(
        out,
        format!("import {{ Tag as Tag }} from './../components/Tag'\n{}", source)
    );
    assert_eq!(out.matches("import ").count(), 1);
    assert!(out.ends_with(source));
}

#[test]
fn bound_identifier_gets_no_import() {
    let source = "import Card from './Card'\nconst x = <Card/>";
    let out = rewrite(source, "/project/src/main.tsx", &names(&["Card"]), &names(&["Card"]), &project());
    assert_eq!(out, None);
    let out = rewrite(
        source,
        "/project/src/main.tsx",
        &names(&["Card", "Tag", "Card"]),
        &names(&["x", "Card"]),
        &project(),
    );
    assert_eq!(
        out,
        Some(format!("import {{ Tag as Tag }} from './components/Tag'\n{}", source))
    );
}

#[test]
fn second_run_adds_nothing() {
    let source = "const x = <Card><AntButton/></Card>";
    let usages = names(&["Card", "AntButton"]);
    let first = rewrite(source, "/project/src/main.tsx", &usages, &names(&["x"]), &project()).unwrap();
    assert_eq!(
        first,
        "import Card from './Card'\n\
         import { Button as AntButton } from 'antd'\n\
         import 'antd/style'\n\
         const x = <Card><AntButton/></Card>"
    );
    let second = rewrite(
        &first,
        "/project/src/main.tsx",
        &usages,
        &names(&["x", "Card", "AntButton"]),
        &project(),
    );
    assert_eq!(second, None);
}

#[test]
fn unknown_and_lower_case_identifiers_stay_untouched() {
    let out = rewrite(
        "const x = <Unknown/>; other(); <div/>",
        "/project/src/main.tsx",
        &names(&["Unknown", "other", "div", "card", ""]),
        &vec![],
        &project(),
    );
    assert_eq!(out, None);
    let lower = ComponentIndex {
        local: vec![local("card", "/project/src/card.tsx", ExportType::Default, "card")],
        resolvers: vec![],
    };
    assert_eq!(
        rewrite("card()", "/project/src/main.tsx", &names(&["card"]), &vec![], &lower),
        None
    );
}

#[test]
fn imports_follow_the_order_of_first_use_and_stand_once() {
    let lines = collect_imports(
        "/project/src/main.tsx",
        &names(&["AntInput", "Tag", "AntButton", "AntInput", "Card", "Tag"]),
        &vec![],
        &project(),
    );
    assert_eq!(
        lines,
        vec![
            "import { Input as AntInput } from 'antd'",
            "import 'antd/style'",
            "import { Tag as Tag } from './components/Tag'",
            "import { Button as AntButton } from 'antd'",
            "import Card from './Card'",
        ]
    );
}

#[test]
fn local_component_comes_before_a_library_component_of_its_name() {
    let lines = collect_imports("/project/src/main.tsx", &names(&["Card"]), &vec![], &project());
    assert_eq!(lines, vec!["import Card from './Card'"]);
    let index = ComponentIndex {
        local: vec![],
        resolvers: project().resolvers,
    };
    let lines = collect_imports("relative/main.tsx", &names(&["Card"]), &vec![], &index);
    assert_eq!(lines, vec!["import { Card as Card } from 'cards'"]);
}

#[test]
fn library_component_is_imported_from_its_module_verbatim() {
    let index = ComponentIndex {
        local: vec![],
        resolvers: vec![ComponentInfo {
            name: "Button".to_string(),
            path: "@scope/ui/button.tsx".to_string(),
            export_type: ExportType::Default,
            original_name: "Button".to_string(),
            style: None,
        }],
    };
    let out = rewrite("<Button/>", "main.tsx", &names(&["Button"]), &vec![], &index);
    assert_eq!(
        out,
        Some("import Button from '@scope/ui/button.tsx'\n<Button/>".to_string())
    );
}

#[test]
fn empty_module_without_usages_stays() {
    assert_eq!(rewrite("", "/project/src/main.tsx", &vec![], &vec![], &project()), None);
    let empty = ComponentIndex {
        local: vec![],
        resolvers: vec![],
    };
    assert_eq!(rewrite("<Card/>", "", &names(&["Card"]), &vec![], &empty), None);
}

#[test]
fn transform() {
    let files = vec![
        SourceFile {
            path: "/playground/src/components/Card.tsx".to_string(),
            exports: vec![ExportStatement::Default],
        },
        SourceFile {
            path: "/playground/src/components/Tag.tsx".to_string(),
            exports: vec![ExportStatement::Named("Tag".to_string())],
        },
    ];
    let resolvers = [ResolverOption {
        module: "antd".to_string(),
        export_type: Some(ExportType::Named),
        style: Some(false),
        exclude: None,
        includes: None,
        prefix: Some("Ant".to_string()),
    }];
    let index = ComponentIndex {
        local: find_local_components(&files, &vec![], &vec![]),
        resolvers: get_resolvers_result(&resolvers.to_vec(), &vec![names(&["Button", "Input"])])
            .unwrap(),
    };
    let content = "export function Main() {\n  return <Card><Tag/><AntButton/></Card>\n}\n";
    let res = rewrite(
        content,
        "/playground/src/main.tsx",
        &names(&["Card", "Tag", "AntButton"]),
        &names(&["Main"]),
        &index,
    )
    .unwrap();
    assert_eq!(
        res,
        format!(
            "import Card from './components/Card'\n\
             import {{ Tag as Tag }} from './components/Tag'\n\
             import {{ Button as AntButton }} from 'antd'\n{}",
            content
        )
    );
}
