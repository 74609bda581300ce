use fixlang::decimal::{i32_to_string, parse_u32, parse_usize, u64_to_string};
use fixlang::lines::lines;
use fixlang::name::{join_strings, FullName, NameSpace};

fn strs(v: &[&str]) -> Vec<String> {
    v.iter().map(|s| s.to_string()).collect()
}

#[test]
fn namespace_printing_and_suffixes() {
    let std_array = NameSpace::new(strs(&["Std", "Array"]));
    let array = NameSpace::new(strs(&["Array"]));
    let std = NameSpace::new(strs(&["Std"]));
    assert_eq!(std_array.to_string(), "Std::Array");
    assert!(array.is_suffix(&std_array));
    assert!(std_array.is_suffix(&std_array));
    assert!(NameSpace::local().is_suffix(&std_array));
    assert!(!std.is_suffix(&std_array));
    assert!(!std_array.is_suffix(&array));
    assert!(NameSpace::local().is_local());
    assert!(std_array.is_equal(&std_array.copy()));
    assert!(!std_array.is_equal(&array));
    assert_eq!(std_array.module(), "Std");
}

#[test]
fn full_name_printing() {
    let n = FullName::from_strs(&["Std", "Array"], "fill");
    assert_eq!(n.to_string(), "Std::Array::fill");
    assert_eq!(n.module(), "Std");
    assert_eq!(FullName::local("x").to_string(), "x");
    assert!(n.is_equal(&n.copy()));
    assert!(!n.is_equal(&FullName::from_strs(&["Std"], "fill")));
}

#[test]
fn joining_strings() {
    assert_eq!(join_strings(&strs(&["gcc", "-o", "a.out"]), " "), "gcc -o a.out");
    assert_eq!(join_strings(&strs(&[]), " "), "");
    assert_eq!(join_strings(&strs(&["one"]), ", "), "one");
}

#[test]
fn decimal_rendering() {
    assert_eq!(u64_to_string(0), "0");
    assert_eq!(u64_to_string(1234), "1234");
    assert_eq!(u64_to_string(u64::MAX), u64::MAX.to_string());
    assert_eq!(i32_to_string(-1), "-1");
    assert_eq!(i32_to_string(0), "0");
    assert_eq!(i32_to_string(i32::MIN), i32::MIN.to_string());
    assert_eq!(i32_to_string(i32::MAX), i32::MAX.to_string());
}

#[test]
fn decimal_parsing_follows_str_parse() {
    for s in ["5", "+5", "+", "", "007", "4294967295", "4294967296", "12a", "-1", " 1", "0"] {
        assert_eq!(parse_u32(s), s.parse::<u32>().ok(), "input {:?}", s);
    }
    for s in ["64", "+8", "18446744073709551615", "18446744073709551616", "x"] {
        assert_eq!(parse_usize(s), s.parse::<usize>().ok(), "input {:?}", s);
    }
}

#[test]
fn lines_follow_str_lines() {
    for s in ["", "\n", "a", "a\n", "a\r\nb\n", "a\n\nb", "a\rb", "a\r", "\r\n", "x\ny\r\nz"] {
        let expected: Vec<String> = s.lines().map(|l| l.to_string()).collect();
        assert_eq!(lines(s), expected, "input {:?}", s);
    }
}
