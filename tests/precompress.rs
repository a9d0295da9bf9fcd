use precompress::algorithm::{Algorithm, Algorithms};
use precompress::compressor::{Compressor, MIN_QUEUE_CAPACITY};
use precompress::filter::{is_eligible_extension, should_compress};
use precompress::paths::{destination_path, sibling_name};
use precompress::stats::{Outcome, Stats};

fn only_gzip() -> Algorithms {
    Algorithms { brotli: false, deflate: false, gzip: true, zstd: false }
}

fn all_algorithms() -> Algorithms {
    Algorithms { brotli: true, deflate: true, gzip: true, zstd: true }
}

fn stats(files: u64, errors: u64, times: [u128; 4]) -> Stats {
    Stats {
        num_files: files,
        num_errors: errors,
        brotli_time: times[0],
        deflate_time: times[1],
        gzip_time: times[2],
        zstd_time: times[3],
    }
}

#[test]
fn extension_suffixes() {
    assert_eq!(Algorithm::Brotli.extension(), ".br");
    assert_eq!(Algorithm::Deflate.extension(), ".zz");
    assert_eq!(Algorithm::Gzip.extension(), ".gz");
    assert_eq!(Algorithm::Zstd.extension(), ".zst");
}

#[test]
fn every_listed_extension_is_eligible() {
    for ext in [
        "atom", "conf", "css", "eot", "htm", "html", "js", "json", "jsx", "md", "otf", "rss",
        "scss", "sitemap", "svg", "text", "ts", "tsx", "ttf", "txt", "wasm", "xml", "yaml",
    ] {
        assert!(is_eligible_extension(ext), "{}", ext);
    }
}

#[test]
fn unlisted_extensions_are_not_eligible() {
    for ext in ["png", "jpg", "gz", "", "HTML", "Css", "html ", ".html", "yml", "wasm2"] {
        assert!(!is_eligible_extension(ext), "{}", ext);
    }
}

#[test]
fn should_compress_reads_the_extension() {
    assert!(should_compress("a.html"));
    assert!(should_compress("/srv/www/assets/app.min.js"));
    assert!(should_compress("dir/data.json"));
    assert!(!should_compress("a.png"));
    assert!(!should_compress("a.HTML"));
    assert!(!should_compress("README"));
    assert!(!should_compress(".html"));
    assert!(!should_compress("site.html/index"));
    assert!(!should_compress("a.html.gz"));
    assert!(!should_compress(""));
}

#[test]
fn sibling_name_appends_suffix() {
    assert_eq!(sibling_name("a.html", Algorithm::Gzip), "a.html.gz");
    assert_eq!(sibling_name("style.css", Algorithm::Zstd), "style.css.zst");
    assert_eq!(sibling_name("", Algorithm::Brotli), ".br");
}

#[test]
fn destination_is_a_sibling() {
    assert_eq!(destination_path("a.html", Algorithm::Gzip), Some("a.html.gz".to_string()));
    assert_eq!(
        destination_path("/srv/www/app.js", Algorithm::Brotli),
        Some("/srv/www/app.js.br".to_string())
    );
    assert_eq!(
        destination_path("dir/sub/x.svg", Algorithm::Deflate),
        Some("dir/sub/x.svg.zz".to_string())
    );
    assert_eq!(
        destination_path("dir/x.svg", Algorithm::Zstd),
        Some("dir/x.svg.zst".to_string())
    );
}

#[test]
fn destination_without_file_name_is_skipped() {
    assert_eq!(destination_path("/", Algorithm::Gzip), None);
    assert_eq!(destination_path("dir/..", Algorithm::Gzip), None);
    assert_eq!(destination_path("", Algorithm::Gzip), None);
}

#[test]
fn enabled_in_fixed_order() {
    assert_eq!(
        all_algorithms().enabled(),
        vec![Algorithm::Brotli, Algorithm::Deflate, Algorithm::Gzip, Algorithm::Zstd]
    );
    assert_eq!(only_gzip().enabled(), vec![Algorithm::Gzip]);
    let none = Algorithms { brotli: false, deflate: false, gzip: false, zstd: false };
    assert!(none.enabled().is_empty());
    let two = Algorithms { brotli: true, deflate: false, gzip: false, zstd: true };
    assert_eq!(two.enabled(), vec![Algorithm::Brotli, Algorithm::Zstd]);
    assert!(two.contains(Algorithm::Zstd));
    assert!(!two.contains(Algorithm::Gzip));
}

#[test]
fn compressor_keeps_its_settings() {
    let c = Compressor::new(4, 11u32, only_gzip());
    assert_eq!(c.threads(), 4);
    assert_eq!(*c.quality(), 11);
    assert_eq!(c.algorithms(), only_gzip());
}

#[test]
fn queue_capacity_is_at_least_minimum() {
    assert_eq!(MIN_QUEUE_CAPACITY, 64);
    assert_eq!(Compressor::new(1, (), only_gzip()).queue_capacity(), 64);
    assert_eq!(Compressor::new(4, (), only_gzip()).queue_capacity(), 64);
    assert_eq!(Compressor::new(32, (), only_gzip()).queue_capacity(), 64);
    assert_eq!(Compressor::new(33, (), only_gzip()).queue_capacity(), 66);
    assert_eq!(Compressor::new(100, (), only_gzip()).queue_capacity(), 200);
}

#[test]
fn eligible_file_gets_one_unit_per_enabled_algorithm() {
    let c = Compressor::new(2, (), all_algorithms());
    let units = c.units_for("site/index.html", false, true);
    let algs: Vec<Algorithm> = units.iter().map(|u| u.0).collect();
    assert_eq!(
        algs,
        vec![Algorithm::Brotli, Algorithm::Deflate, Algorithm::Gzip, Algorithm::Zstd]
    );
    assert!(units.iter().all(|u| u.1 == "site/index.html"));
}

#[test]
fn ineligible_entries_get_no_units() {
    let c = Compressor::new(2, (), all_algorithms());
    assert!(c.units_for("site/logo.png", false, true).is_empty());
    assert!(c.units_for("site/link.html", true, true).is_empty());
    assert!(c.units_for("site/link.html", true, false).is_empty());
    assert!(c.units_for("site/dir.css", false, false).is_empty());
    let none = Algorithms { brotli: false, deflate: false, gzip: false, zstd: false };
    assert!(Compressor::new(2, (), none).units_for("a.css", false, true).is_empty());
}

#[test]
fn new_stats_are_zero() {
    assert_eq!(Stats::new(), stats(0, 0, [0; 4]));
    assert_eq!(Stats::default(), stats(0, 0, [0; 4]));
}

#[test]
fn record_success_and_failure() {
    let mut s = Stats::new();
    s.record(Outcome::Succeeded { algorithm: Algorithm::Deflate, nanos: 250 });
    assert_eq!(s, stats(1, 0, [0, 250, 0, 0]));
    s.record(Outcome::Failed);
    assert_eq!(s, stats(1, 1, [0, 250, 0, 0]));
    s.record(Outcome::Succeeded { algorithm: Algorithm::Deflate, nanos: 50 });
    s.record(Outcome::Succeeded { algorithm: Algorithm::Brotli, nanos: 7 });
    s.record(Outcome::Succeeded { algorithm: Algorithm::Zstd, nanos: 9 });
    s.record(Outcome::Succeeded { algorithm: Algorithm::Gzip, nanos: 3 });
    assert_eq!(s, stats(5, 1, [7, 300, 3, 9]));
}

#[test]
fn record_saturates() {
    let mut s = stats(u64::MAX, u64::MAX, [u128::MAX, 0, 0, 0]);
    s.record(Outcome::Succeeded { algorithm: Algorithm::Brotli, nanos: 1 });
    s.record(Outcome::Failed);
    assert_eq!(s, stats(u64::MAX, u64::MAX, [u128::MAX, 0, 0, 0]));
}

#[test]
fn add_is_fieldwise() {
    let a = stats(1, 2, [3, 4, 5, 6]);
    let b = stats(10, 20, [30, 40, 50, 60]);
    assert_eq!(a.add(b), stats(11, 22, [33, 44, 55, 66]));
    assert_eq!(a.add(b), b.add(a));
    assert_eq!(a.add(Stats::new()), a);
    let c = stats(100, 0, [0, 0, 0, 1]);
    assert_eq!(a.add(b).add(c), a.add(b.add(c)));
}

#[test]
fn add_saturates() {
    let a = stats(u64::MAX - 1, 5, [u128::MAX - 2, 1, 1, 1]);
    let b = stats(3, 5, [10, 1, 1, 1]);
    assert_eq!(a.add(b), stats(u64::MAX, 10, [u128::MAX, 2, 2, 2]));
}

#[test]
fn sum_of_workers() {
    assert_eq!(Stats::sum_of(&vec![]), Stats::new());
    let parts = vec![stats(1, 0, [5, 0, 0, 0]), stats(2, 1, [0, 0, 7, 0]), stats(0, 3, [0; 4])];
    assert_eq!(Stats::sum_of(&parts), stats(3, 4, [5, 0, 7, 0]));
}

fn outcomes() -> Vec<Outcome> {
    vec![
        Outcome::Succeeded { algorithm: Algorithm::Gzip, nanos: 10 },
        Outcome::Failed,
        Outcome::Succeeded { algorithm: Algorithm::Brotli, nanos: 20 },
        Outcome::Succeeded { algorithm: Algorithm::Gzip, nanos: 30 },
        Outcome::Failed,
        Outcome::Succeeded { algorithm: Algorithm::Zstd, nanos: 40 },
    ]
}

fn run_one_worker(items: &[Outcome]) -> Stats {
    let mut s = Stats::new();
    for o in items {
        s.record(*o);
    }
    s
}

#[test]
fn successes_plus_failures_equal_items() {
    let s = run_one_worker(&outcomes());
    assert_eq!(s.num_files + s.num_errors, outcomes().len() as u64);
    assert_eq!(s, stats(4, 2, [20, 0, 40, 40]));
}

#[test]
fn one_worker_and_many_workers_agree() {
    let items = outcomes();
    let single = run_one_worker(&items);
    // three workers, each taking items in a different interleaving
    let shares = vec![
        run_one_worker(&[items[5], items[0]]),
        run_one_worker(&[items[3], items[1], items[4]]),
        run_one_worker(&[items[2]]),
        run_one_worker(&[]),
    ];
    assert_eq!(Stats::sum_of(&shares), single);
}

#[test]
fn failure_leaves_siblings_counted() {
    // the gzip output of a.css failed; its brotli output and b.css succeeded
    let mut s = Stats::new();
    s.record(Outcome::Succeeded { algorithm: Algorithm::Brotli, nanos: 4 });
    s.record(Outcome::Failed);
    s.record(Outcome::Succeeded { algorithm: Algorithm::Gzip, nanos: 6 });
    assert_eq!(s, stats(2, 1, [4, 0, 6, 0]));
}

#[test]
fn html_png_and_symlink_with_gzip_only() {
    let c = Compressor::new(4, (), only_gzip());
    let mut units: Vec<(Algorithm, String)> = Vec::new();
    units.extend(c.units_for("root/a.html", false, true));
    units.extend(c.units_for("root/a.png", false, true));
    units.extend(c.units_for("root/link.html", true, true));
    assert_eq!(units, vec![(Algorithm::Gzip, "root/a.html".to_string())]);
    let outputs: Vec<Option<String>> =
        units.iter().map(|u| destination_path(&u.1, u.0)).collect();
    assert_eq!(outputs, vec![Some("root/a.html.gz".to_string())]);

    let mut s = Stats::new();
    s.record(Outcome::Succeeded { algorithm: Algorithm::Gzip, nanos: 1200 });
    let total = Stats::sum_of(&vec![s, Stats::new(), Stats::new(), Stats::new()]);
    assert_eq!(total.num_files, 1);
    assert_eq!(total.num_errors, 0);
    assert!(total.gzip_time > 0);
    assert_eq!((total.brotli_time, total.deflate_time, total.zstd_time), (0, 0, 0));
}
