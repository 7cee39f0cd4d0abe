use llama_cpp_2::sampling::params::LlamaSamplerChainParams;

#[test]
fn defaults_are_those_of_the_native_library() {
    assert!(LlamaSamplerChainParams::from_native(true).no_perf());
    assert!(!LlamaSamplerChainParams::from_native(false).no_perf());
}

#[test]
fn the_last_switch_counts() {
    let mut params = LlamaSamplerChainParams::from_native(true);
    params.with_no_perf(false);
    assert!(!params.no_perf());
    let chained = params.with_no_perf(false).with_no_perf(true);
    assert!(chained.no_perf());
    assert!(params.no_perf());
}

#[test]
fn debug_output_is_the_name_of_the_type() {
    assert_eq!(
        LlamaSamplerChainParams::from_native(true).debug_text(),
        "LlamaSamplerChainParams"
    );
}
