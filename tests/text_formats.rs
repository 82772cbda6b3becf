use godot_mun::header::{first_line, get_base_type};
use godot_mun::language::MunExtension;
use godot_mun::resource::{MunFormatLoader, MunFormatSaver};
use godot_mun::script::MunScript;
use godot_mun::uid_map::{UidMap, UNASSIGNED_UID};

#[test]
fn header_with_space() {
    assert_eq!(get_base_type("// Node\nfn main() {}"), "Node");
}

#[test]
fn header_without_space() {
    assert_eq!(get_base_type("//Node"), "Node");
}

#[test]
fn header_with_surrounding_whitespace() {
    assert_eq!(get_base_type("  //\tSprite2D  \r\nfn f() {}"), "Sprite2D");
}

#[test]
fn no_header_gives_empty() {
    assert_eq!(get_base_type("fn main() {}\n// Node"), "");
    assert_eq!(get_base_type("// two words\n"), "");
    assert_eq!(get_base_type(""), "");
    assert_eq!(get_base_type("\n// Node"), "");
}

#[test]
fn first_line_rules() {
    assert_eq!(first_line(""), None);
    assert_eq!(first_line("abc"), Some("abc"));
    assert_eq!(first_line("abc\ndef"), Some("abc"));
    assert_eq!(first_line("abc\r\ndef"), Some("abc"));
    assert_eq!(first_line("\nabc"), Some(""));
    assert_eq!(first_line("é\nx"), Some("é"));
}

#[test]
fn script_base_type_follows_source() {
    let mut script = MunScript::new();
    assert_eq!(script.get_instance_base_type(), "");
    script.set_source_code("// Node2D\n".to_string());
    assert_eq!(script.get_instance_base_type(), "Node2D");
    assert_eq!(script.get_source_code(), "// Node2D\n");
}

#[test]
fn save_then_load_round_trips() {
    let text = "// Node\npub fn answer() -> i64 { 42 }\r\n\u{e9}\n".to_string();
    let mut script = MunScript::new();
    script.set_source_code(text.clone());
    let stored = MunFormatSaver.save(&script);
    assert_eq!(stored, text);
    let loaded = MunFormatLoader.load(stored);
    assert_eq!(loaded.get_source_code(), text);
}

#[test]
fn uid_set_then_get() {
    let mut uids = UidMap::new();
    MunFormatSaver.set_uid(&mut uids, "res://a.mun".to_string(), 42);
    assert_eq!(MunFormatLoader.get_resource_uid(&uids, &"res://a.mun".to_string()), 42);
    assert_eq!(uids.get_uid(&"res://a.mun".to_string()), 42);
}

#[test]
fn uid_unknown_path_is_unassigned() {
    let mut uids = UidMap::new();
    assert_eq!(uids.get_uid(&"res://b.mun".to_string()), -1);
    uids.set_uid("res://a.mun".to_string(), 5);
    assert_eq!(uids.get_uid(&"res://b.mun".to_string()), UNASSIGNED_UID);
}

#[test]
fn uid_is_replaced() {
    let mut uids = UidMap::new();
    uids.set_uid("p".to_string(), 1);
    uids.set_uid("q".to_string(), 2);
    uids.set_uid("p".to_string(), 3);
    assert_eq!(uids.get_uid(&"p".to_string()), 3);
    assert_eq!(uids.get_uid(&"q".to_string()), 2);
}

#[test]
fn loader_types_and_extensions() {
    let loader = MunFormatLoader;
    assert!(loader.handles_type(&"Script".to_string()));
    assert!(loader.handles_type(&"Mun".to_string()));
    assert!(!loader.handles_type(&"Resource".to_string()));
    assert_eq!(loader.get_resource_type(&"res://x.mun".to_string()), "Mun");
    assert_eq!(loader.get_resource_type(&"res://x.gd".to_string()), "");
    assert_eq!(loader.get_resource_type(&"mun".to_string()), "");
    assert_eq!(loader.get_resource_type(&".mun".to_string()), "Mun");
    assert_eq!(loader.get_recognized_extensions(), vec!["mun".to_string()]);
}

#[test]
fn saver_recognizes_scripts() {
    let saver = MunFormatSaver;
    assert!(saver.recognize(&"MunScript".to_string()));
    assert!(!saver.recognize(&"GDScript".to_string()));
    assert_eq!(saver.get_recognized_extensions(), vec!["mun".to_string()]);
}

#[test]
fn language_reflection_lists() {
    let lang = MunExtension;
    let words = lang.get_reserved_words();
    assert_eq!(words.len(), 11);
    assert_eq!(words[0], "pub");
    assert_eq!(words[8], "extern");
    assert_eq!(words[10], "use");
    assert_eq!(lang.get_comment_delimiters(), vec!["//".to_string()]);
    assert!(lang.get_string_delimiters().is_empty());
    assert_eq!(lang.get_recognized_extensions(), vec!["mun".to_string()]);
    assert_eq!(lang.get_extension(), "mun");
    assert_eq!(lang.get_name(), "Mun");
    assert_eq!(lang.get_type(), "Mun");
    assert!(lang.handles_global_class_type(&"Mun".to_string()));
    assert!(!lang.handles_global_class_type(&"GDScript".to_string()));
}

#[test]
fn control_flow_keywords() {
    let lang = MunExtension;
    for k in ["if", "else", "while", "break", "loop"] {
        assert!(lang.is_control_flow_keyword(&k.to_string()));
    }
    for k in ["fn", "let", "pub", "If"] {
        assert!(!lang.is_control_flow_keyword(&k.to_string()));
    }
}

#[test]
fn template_declares_class_name() {
    let lang = MunExtension;
    let script = lang.make_template(&"Player".to_string());
    assert_eq!(script.get_source_code(), "// Player");
    assert_eq!(script.get_instance_base_type(), "Player");
    assert_eq!(lang.get_global_class_name("// Enemy"), "Enemy");
}
