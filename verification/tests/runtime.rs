use std::io::Write;
use terradrift::json::Json;
use terradrift::runtime::{
    archive_file_name, cache_location, cache_variable, default_version,
    download_url, ensure_terraform, extract_terraform, platform_triple, terraform_version,
    has_name, tool_name, version_arguments, version_of, BinaryLocation, Resolution,
    RuntimeError, EXECUTABLE_MODE,
};

fn strings(list: &[&str]) -> Vec<String> {
    list.iter().map(|s| s.to_string()).collect()
}

fn archive(entries: &[(&str, &[u8])], deflate: bool) -> Vec<u8> {
    let mut writer = zip::ZipWriter::new(std::io::Cursor::new(Vec::new()));
    let method = if deflate {
        zip::CompressionMethod::Deflated
    } else {
        zip::CompressionMethod::Stored
    };
    let options = zip::write::FileOptions::default().compression_method(method);
    for (name, content) in entries {
        writer.start_file(*name, options).unwrap();
        writer.write_all(content).unwrap();
    }
    writer.finish().unwrap().into_inner()
}

#[test]
fn platform_names_follow_the_releases() {
    assert_eq!(platform_triple("linux", "x86_64"), ("linux", "amd64"));
    assert_eq!(platform_triple("macos", "aarch64"), ("darwin", "arm64"));
    assert_eq!(platform_triple("freebsd", "riscv64"), ("freebsd", "riscv64"));
    assert_eq!(platform_triple("windows", "x86"), ("windows", "x86"));
}

#[test]
fn release_archive_is_named_by_version_and_platform() {
    assert_eq!(archive_file_name("1.7.5", "linux", "x86_64"), "terraform_1.7.5_linux_amd64.zip");
    assert_eq!(archive_file_name("1.9.0", "macos", "aarch64"), "terraform_1.9.0_darwin_arm64.zip");
    assert_eq!(
        download_url("1.7.5", "linux", "x86_64"),
        "https://releases.hashicorp.com/terraform/1.7.5/terraform_1.7.5_linux_amd64.zip"
    );
    assert_eq!(
        download_url("1.6.0", "macos", "x86_64"),
        "https://releases.hashicorp.com/terraform/1.6.0/terraform_1.6.0_darwin_amd64.zip"
    );
}

#[test]
fn names_of_the_tool() {
    assert_eq!(tool_name(), "terraform");
    assert_eq!(default_version(), "1.7.5");
    assert_eq!(cache_variable(), "TERRADRIFT_TF_CACHE");
    assert_eq!(version_arguments(), vec!["version", "-json"]);
    assert_eq!(EXECUTABLE_MODE, 0o755);
}

#[test]
fn cache_location_is_keyed_by_version() {
    assert_eq!(
        cache_location(None, None, Some("/home/u/.cache")),
        BinaryLocation {
            base: "/home/u/.cache".to_string(),
            components: strings(&["terradrift/terraform", "1.7.5", "terraform"]),
        }
    );
    assert_eq!(
        cache_location(Some("1.9.0"), None, None),
        BinaryLocation {
            base: "/tmp".to_string(),
            components: strings(&["terradrift/terraform", "1.9.0", "terraform"]),
        }
    );
    assert_eq!(
        cache_location(Some("1.9.0"), Some("/opt/tf"), Some("/home/u/.cache")),
        BinaryLocation { base: "/opt/tf".to_string(), components: strings(&["1.9.0", "terraform"]) }
    );
}

#[test]
fn binary_on_the_search_path_is_taken() {
    for cached in [false, true] {
        assert_eq!(
            ensure_terraform(
                Some("/usr/bin/terraform"),
                Some("1.9.0"),
                Some("/opt/tf"),
                None,
                cached,
                "linux",
                "x86_64",
            ),
            Resolution::OnSearchPath("/usr/bin/terraform".to_string())
        );
    }
}

#[test]
fn resolving_twice_downloads_once() {
    let first = ensure_terraform(None, None, Some("/opt/tf"), None, false, "linux", "aarch64");
    let destination = BinaryLocation {
        base: "/opt/tf".to_string(),
        components: strings(&["1.7.5", "terraform"]),
    };
    assert_eq!(
        first,
        Resolution::Download {
            url: "https://releases.hashicorp.com/terraform/1.7.5/terraform_1.7.5_linux_arm64.zip"
                .to_string(),
            destination: destination.clone(),
        }
    );
    let second = ensure_terraform(None, None, Some("/opt/tf"), None, true, "linux", "aarch64");
    assert_eq!(second, Resolution::Cached(destination));
    let third = ensure_terraform(None, None, Some("/opt/tf"), None, true, "linux", "aarch64");
    assert_eq!(third, second);
}

#[test]
fn extract_takes_the_binary_out_of_the_archive() {
    let binary: &[u8] = b"\x7fELF not really a binary, but long enough to be worth deflating, deflating, deflating";
    for deflate in [false, true] {
        let bytes = archive(&[("LICENSE.txt", b"text"), ("terraform", binary)], deflate);
        assert_ne!(bytes.as_slice(), binary);
        assert_eq!(extract_terraform(&bytes), Ok(binary.to_vec()));
    }
    assert_eq!(extract_terraform(&archive(&[("terraform", b"")], false)), Ok(Vec::new()));
}

#[test]
fn extract_reports_a_missing_binary() {
    let bytes = archive(&[("LICENSE.txt", b"text"), ("bin/terraform", b"x")], true);
    assert_eq!(extract_terraform(&bytes), Err(RuntimeError::MissingExecutable));
    assert_eq!(extract_terraform(&archive(&[], false)), Err(RuntimeError::MissingExecutable));
}

#[test]
fn has_name_looks_for_the_whole_name() {
    let names = strings(&["LICENSE.txt", "bin/terraform", "terraform"]);
    assert!(has_name(&names, "terraform"));
    assert!(has_name(&names, "LICENSE.txt"));
    assert!(!has_name(&names, "bin"));
    assert!(!has_name(&names, "Terraform"));
    assert!(!has_name(&Vec::new(), "terraform"));
}

#[test]
fn extract_reports_an_unreadable_archive() {
    assert_eq!(extract_terraform(b""), Err(RuntimeError::Archive));
    assert_eq!(extract_terraform(b"<html>404</html>"), Err(RuntimeError::Archive));
    let mut bytes = archive(&[("terraform", b"0123456789")], false);
    bytes.truncate(bytes.len() - 8);
    assert_eq!(extract_terraform(&bytes), Err(RuntimeError::Archive));
}

#[test]
fn extract_reports_a_damaged_binary() {
    let content: &[u8] = b"0123456789";
    let mut bytes = archive(&[("terraform", content)], false);
    let at = bytes.windows(content.len()).position(|w| w == content).unwrap();
    bytes[at + 3] = b'x';
    assert_eq!(extract_terraform(&bytes), Err(RuntimeError::Archive));
}

#[test]
fn version_is_read_from_the_query_output() {
    assert_eq!(
        terraform_version(b"{\"terraform_version\":\"1.7.5\"}\n"),
        Some("1.7.5".to_string())
    );
    assert_eq!(
        terraform_version(b"{\"platform\":\"linux_amd64\",\"terraform_version\":\"1.9.0\"}"),
        Some("1.9.0".to_string())
    );
    assert_eq!(terraform_version(b"{}"), Some(String::new()));
    assert_eq!(terraform_version(b"{\"terraform_version\":17}"), Some(String::new()));
    assert_eq!(terraform_version(b"[\"terraform_version\"]"), Some(String::new()));
    assert_eq!(terraform_version(b"Terraform v1.7.5"), None);
    assert_eq!(terraform_version(b""), None);
    assert_eq!(version_of(&Json::Null), "");
}
