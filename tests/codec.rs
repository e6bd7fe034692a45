use flatpak_rs::format::FlatpakManifestFormat;
use flatpak_rs::module::FlatpakModule;

#[test]
fn canonical_module_round_trips() {
    let input = "{\"name\": \"hello\", \"sources\": [{\"type\": \"dir\", \"path\": \"./\"}], \"modules\": [\"nested.json\"]}";
    let first = FlatpakModule::parse(FlatpakManifestFormat::JSON, input).unwrap();
    let canonical = first.dump().unwrap();
    let again = FlatpakModule::parse(FlatpakManifestFormat::JSON, &canonical).unwrap();
    assert_eq!(again.dump().unwrap(), canonical);
}
