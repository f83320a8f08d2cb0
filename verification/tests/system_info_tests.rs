use input_recorder::system_info::{format_os_info, SystemFacts};

#[test]
fn report_words_names_load_and_sizes() {
    let facts = SystemFacts {
        os_name: Some("Ubuntu".to_string()),
        os_version: Some("22.04".to_string()),
        kernel_version: Some("6.5.0".to_string()),
        cpu_brand: Some("Example CPU @ 3.00GHz".to_string()),
        cpu_usage: format!("{:.2}", 12.3456_f32),
        used_memory: 8 * 1024 * 1024 * 1024 + 1024 * 1024 - 1,
        total_memory: 16 * 1024 * 1024 * 1024,
        used_swap: 0,
        total_swap: 2 * 1024 * 1024 * 1024,
    };
    assert_eq!(
        format_os_info(&facts),
        "OS: Ubuntu 22.04\nKernel: 6.5.0\nCPU: Example CPU @ 3.00GHz\nCPU Usage: 12.35%\n\
         Memory: 8192/16384 MB\nSwap: 0/2048 MB"
    );
}

#[test]
fn report_says_unknown_where_the_host_tells_nothing() {
    let facts = SystemFacts {
        os_name: None,
        os_version: None,
        kernel_version: None,
        cpu_brand: None,
        cpu_usage: "0.00".to_string(),
        used_memory: 1024 * 1024 - 1,
        total_memory: 1024 * 1024,
        used_swap: u64::MAX,
        total_swap: u64::MAX,
    };
    assert_eq!(
        format_os_info(&facts),
        "OS: Unknown Unknown\nKernel: Unknown\nCPU: Unknown\nCPU Usage: 0.00%\n\
         Memory: 0/1 MB\nSwap: 17592186044415/17592186044415 MB"
    );
}
