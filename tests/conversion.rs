use opencc_convert::{convert_text, select_profile, ConversionProfile, Converter};

fn run(text: &str, config: &str) -> String {
    convert_text(text, config).expect("built-in converter")
}

#[test]
fn t2s_tag_selects_traditional_to_simplified() {
    assert_eq!(select_profile("t2s"), ConversionProfile::TraditionalToSimplified);
}

#[test]
fn s2t_tag_selects_simplified_to_traditional() {
    assert_eq!(select_profile("s2t"), ConversionProfile::SimplifiedToTraditional);
}

#[test]
fn unrecognised_tags_default_to_simplified_to_traditional() {
    for tag in ["", "foo", "S2T", "T2S", "t2s ", "t2"] {
        assert_eq!(select_profile(tag), ConversionProfile::SimplifiedToTraditional);
    }
}

#[test]
fn s2t_converts_to_traditional() {
    assert_eq!(run("汉字", "s2t"), "漢字");
    assert_eq!(run("开放中文转换是完全由 Rust 实现的。", "s2t"), "開放中文轉換是完全由 Rust 實現的。");
}

#[test]
fn t2s_converts_to_simplified() {
    assert_eq!(run("漢字", "t2s"), "汉字");
    assert_eq!(run("開放中文轉換", "t2s"), "开放中文转换");
}

#[test]
fn t2s_keeps_simplified_glyphs() {
    assert_eq!(run("汉字", "t2s"), "汉字");
}

#[test]
fn unrecognised_tag_converts_like_s2t() {
    for tag in ["", "foo", "S2T", "T2S", " t2s", "s2t"] {
        assert_eq!(run("汉字", tag), "漢字");
        assert_eq!(run("开放中文转换", tag), run("开放中文转换", "s2t"));
    }
}

#[test]
fn simplified_round_trip_through_traditional() {
    for sample in ["汉字", "开放中文转换", "开放中文转换是完全由 Rust 实现的。", "hello, 世界"] {
        let traditional = run(sample, "s2t");
        assert_eq!(run(&traditional, "t2s"), sample);
    }
}

#[test]
fn empty_text_stays_empty() {
    assert_eq!(run("", "s2t"), "");
    assert_eq!(run("", "t2s"), "");
    assert_eq!(run("", "other"), "");
}

#[test]
fn converter_keeps_its_profile() {
    let s2t = Converter::new(ConversionProfile::SimplifiedToTraditional).expect("built-in converter");
    assert_eq!(s2t.profile(), ConversionProfile::SimplifiedToTraditional);
    assert_eq!(s2t.convert("汉字"), "漢字");
    let t2s = Converter::new(ConversionProfile::TraditionalToSimplified).expect("built-in converter");
    assert_eq!(t2s.profile(), ConversionProfile::TraditionalToSimplified);
    assert_eq!(t2s.convert("漢字"), "汉字");
}

#[test]
fn text_without_chinese_is_unchanged() {
    assert_eq!(run("Rust 1.0", "s2t"), "Rust 1.0");
    assert_eq!(run("Rust 1.0", "t2s"), "Rust 1.0");
}
