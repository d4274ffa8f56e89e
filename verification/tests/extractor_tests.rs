use fampp::extractor::{
    archive_format, extract_archive, install_steps, install_steps_for, place_single_file,
    temp_extension, temp_file_name, unpack_steps, AcquisitionError, ArchiveFormat, Run, Step,
};
use fampp::registry::get_package_info;

fn unpacking(format: ArchiveFormat, archive: &str, dest: &str) -> Vec<Step> {
    vec![
        Step::EnsureDir { path: dest.to_string() },
        Step::Unpack { format, archive: archive.to_string(), dest: dest.to_string() },
        Step::RemoveFile { path: archive.to_string() },
    ]
}

#[test]
fn zip_goes_the_zip_way() {
    assert_eq!(
        extract_archive("/tmp/php.zip", "/opt/php"),
        Ok(unpacking(ArchiveFormat::Zip, "/tmp/php.zip", "/opt/php"))
    );
}

#[test]
fn tar_gz_goes_the_tar_way() {
    assert_eq!(
        extract_archive("/tmp/mysql.tar.gz", "/opt/mysql"),
        Ok(unpacking(ArchiveFormat::TarGz, "/tmp/mysql.tar.gz", "/opt/mysql"))
    );
    assert_eq!(
        extract_archive("mysql.tgz", "out"),
        Ok(unpacking(ArchiveFormat::TarGz, "mysql.tgz", "out"))
    );
}

#[test]
fn extension_is_read_in_any_case() {
    assert_eq!(
        extract_archive("C:/Temp/PHP.ZIP", "C:/php"),
        Ok(unpacking(ArchiveFormat::Zip, "C:/Temp/PHP.ZIP", "C:/php"))
    );
    assert_eq!(
        extract_archive("a.Tar.Gz", "b"),
        Ok(unpacking(ArchiveFormat::TarGz, "a.Tar.Gz", "b"))
    );
}

#[test]
fn other_files_are_refused_without_a_step() {
    for name in ["a.rar", "a.tar", "a.gz", "a.zip.bak", "zip", "", "a.php", "a.tar.gz "] {
        assert_eq!(extract_archive(name, "dest"), Err(AcquisitionError::UnsupportedFormat));
    }
}

#[test]
fn format_by_extension() {
    assert_eq!(archive_format("x.zip"), Some(ArchiveFormat::Zip));
    assert_eq!(archive_format(".zip"), Some(ArchiveFormat::Zip));
    assert_eq!(archive_format("x.tar.gz"), Some(ArchiveFormat::TarGz));
    assert_eq!(archive_format("x.tgz"), Some(ArchiveFormat::TarGz));
    assert_eq!(archive_format("x.ZIP"), None);
    assert_eq!(archive_format("xzip"), None);
    assert_eq!(archive_format("zi"), None);
}

#[test]
fn archive_is_removed_last() {
    let steps = unpack_steps(ArchiveFormat::Zip, "a.zip", "d");
    assert_eq!(steps.len(), 3);
    assert_eq!(steps[0], Step::EnsureDir { path: "d".to_string() });
    assert_eq!(steps[2], Step::RemoveFile { path: "a.zip".to_string() });
}

#[test]
fn temp_extension_follows_the_url() {
    assert_eq!(temp_extension("https://example.org/a.tar.gz"), "tar.gz");
    assert_eq!(temp_extension("https://example.org/a.tgz"), "tar.gz");
    assert_eq!(temp_extension("https://example.org/a.php"), "php");
    assert_eq!(temp_extension("https://example.org/a.zip"), "zip");
    assert_eq!(temp_extension("https://example.org/download"), "zip");
    assert_eq!(temp_extension("https://example.org/a.TAR.GZ"), "zip");
}

#[test]
fn adminer_is_installed_as_a_single_file() {
    let info = get_package_info("adminer", "latest", "macos", "aarch64").unwrap();
    assert_eq!(
        install_steps("adminer", &info.url),
        Ok(vec![
            Step::Download {
                url: "https://github.com/vrana/adminer/releases/download/v4.8.1/adminer-4.8.1.php"
                    .to_string(),
                to: "adminer.php".to_string(),
            },
            Step::EnsureDir { path: "www".to_string() },
            Step::CopyFile { from: "adminer.php".to_string(), to: "www/adminer.php".to_string() },
            Step::RemoveFile { path: "adminer.php".to_string() },
        ])
    );
}

#[test]
fn single_file_is_copied_and_then_removed() {
    assert_eq!(
        place_single_file("/base/adminer.php", "/base/www", "/base/www/adminer.php"),
        vec![
            Step::EnsureDir { path: "/base/www".to_string() },
            Step::CopyFile {
                from: "/base/adminer.php".to_string(),
                to: "/base/www/adminer.php".to_string(),
            },
            Step::RemoveFile { path: "/base/adminer.php".to_string() },
        ]
    );
}

#[test]
fn runtimes_are_installed_from_archives() {
    let info = get_package_info("php", "latest", "windows", "x86_64").unwrap();
    assert_eq!(temp_file_name("php", &info.url), "php.zip");
    assert_eq!(
        install_steps("php", &info.url),
        Ok(vec![
            Step::Download { url: info.url.clone(), to: "php.zip".to_string() },
            Step::EnsureDir { path: "packages/php".to_string() },
            Step::Unpack {
                format: ArchiveFormat::Zip,
                archive: "php.zip".to_string(),
                dest: "packages/php".to_string(),
            },
            Step::RemoveFile { path: "php.zip".to_string() },
        ])
    );
    let info = get_package_info("mysql", "latest", "macos", "aarch64").unwrap();
    assert_eq!(temp_file_name("mysql", &info.url), "mysql.tar.gz");
    assert_eq!(
        install_steps("mysql", &info.url),
        Ok(vec![
            Step::Download { url: info.url.clone(), to: "mysql.tar.gz".to_string() },
            Step::EnsureDir { path: "packages/mysql".to_string() },
            Step::Unpack {
                format: ArchiveFormat::TarGz,
                archive: "mysql.tar.gz".to_string(),
                dest: "packages/mysql".to_string(),
            },
            Step::RemoveFile { path: "mysql.tar.gz".to_string() },
        ])
    );
}

#[test]
fn only_the_exact_name_is_the_single_file() {
    assert_eq!(temp_file_name("Adminer", "https://example.org/adminer-4.8.1.php"), "Adminer.php");
    assert_eq!(
        install_steps("Adminer", "https://example.org/adminer-4.8.1.php"),
        Err(AcquisitionError::UnsupportedFormat)
    );
}

#[test]
fn package_name_is_kept_as_written_in_the_paths() {
    let steps = install_steps("PHP", "https://example.org/php.zip").unwrap();
    assert_eq!(steps[1], Step::EnsureDir { path: "packages/PHP".to_string() });
    assert_eq!(steps[3], Step::RemoveFile { path: "PHP.zip".to_string() });
}

#[test]
fn run_hands_the_steps_out_in_order() {
    let steps = install_steps("adminer", "https://example.org/adminer.php").unwrap();
    let mut run = Run::new(steps.clone());
    assert_eq!(run.outcome(), None);
    for step in &steps {
        assert_eq!(run.next(), Some(step));
        assert_eq!(run.next(), Some(step));
        run.report(true);
    }
    assert_eq!(run.next(), None);
    assert_eq!(run.outcome(), Some(true));
    run.report(false);
    assert_eq!(run.outcome(), Some(true));
}

#[test]
fn run_stops_at_the_first_failure() {
    let steps = install_steps("php", "https://example.org/php.zip").unwrap();
    let mut run = Run::new(steps.clone());
    run.report(true);
    assert_eq!(run.next(), Some(&steps[1]));
    run.report(true);
    assert_eq!(run.next(), Some(&steps[2]));
    run.report(false);
    assert_eq!(run.next(), None);
    assert_eq!(run.outcome(), Some(false));
    run.report(true);
    assert_eq!(run.next(), None);
    assert_eq!(run.outcome(), Some(false));
}

#[test]
fn failed_download_ends_the_run_before_anything_else() {
    let steps = install_steps("php", "https://example.org/php.zip").unwrap();
    let mut run = Run::new(steps);
    assert!(matches!(run.next(), Some(Step::Download { .. })));
    run.report(false);
    assert_eq!(run.next(), None);
    assert_eq!(run.outcome(), Some(false));
}

#[test]
fn empty_run_is_complete() {
    let mut run = Run::new(vec![]);
    assert_eq!(run.next(), None);
    assert_eq!(run.outcome(), Some(true));
    run.report(false);
    assert_eq!(run.outcome(), Some(true));
}

#[test]
fn installation_goes_by_the_format_that_is_given() {
    assert_eq!(
        install_steps_for("php", "https://example.org/php", Some(ArchiveFormat::TarGz)),
        Ok(vec![
            Step::Download { url: "https://example.org/php".to_string(), to: "php.zip".to_string() },
            Step::EnsureDir { path: "packages/php".to_string() },
            Step::Unpack {
                format: ArchiveFormat::TarGz,
                archive: "php.zip".to_string(),
                dest: "packages/php".to_string(),
            },
            Step::RemoveFile { path: "php.zip".to_string() },
        ])
    );
    assert_eq!(
        install_steps_for("php", "https://example.org/php.zip", None),
        Err(AcquisitionError::UnsupportedFormat)
    );
    assert_eq!(
        install_steps_for("adminer", "https://example.org/a.php", None),
        install_steps("adminer", "https://example.org/a.php")
    );
}
