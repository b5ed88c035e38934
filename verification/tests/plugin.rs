use farm_plugin_react_components::module_federation::MyFarmPlugin;

#[test]
fn plugin_is_known_by_its_name() {
    let plugin = MyFarmPlugin::new("{}".to_string());
    assert_eq!(plugin.name(), "MyFarmPlugin");
    assert_eq!(MyFarmPlugin::new(String::new()).name(), "MyFarmPlugin");
}
