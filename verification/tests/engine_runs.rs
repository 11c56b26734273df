use knrs::config::Config;
use knrs::discovery::summary_files;
use knrs::engine::KRNSMovementOperator;
use knrs::engine::PreparedTask;
use knrs::engine::aggregate_prepared;
use knrs::engine::run_map_stage;
use knrs::prepare::plan_tasks;

/// Copies every row of the input (header included) into the summary file;
/// aggregation counts the data rows of every summary and writes one row
/// holding the total.
struct RowCountOp;

impl<B: std::io::BufRead, W: std::io::Write>
    KRNSMovementOperator<quick_csv::Csv<B>, csv::Writer<W>> for RowCountOp
{
    type T = u64;

    fn summarize_one_file(&self, input: &mut quick_csv::Csv<B>, output: &mut csv::Writer<W>) {
        let headers = input.headers();
        if !headers.is_empty() {
            output.write(headers.iter().map(|h| h.as_str())).unwrap();
        }
        while let Some(row) = input.next() {
            let row = row.unwrap();
            let cols: Vec<String> = row.columns().unwrap().map(|c| c.to_string()).collect();
            output.write(cols.iter().map(|c| c.as_str())).unwrap();
        }
    }

    fn create_out(&self) -> u64 {
        0
    }

    fn aggregate_one_summary(&self, input: &mut quick_csv::Csv<B>, out: &mut u64) {
        while let Some(row) = input.next() {
            row.unwrap();
            *out += 1;
        }
    }

    fn write_aggregate(&self, writer: &mut csv::Writer<W>, out: &u64) {
        writer.write(["rows"].iter().copied()).unwrap();
        writer.write([out.to_string()].iter().map(|s| s.as_str())).unwrap();
    }
}

// The tests share the system temporary directory, which always exists and is
// writable, instead of
// creating directories of their own; each test keeps to its own file names
// and its own summary extension, so the glob of one never sees another's
// files, and a rerun overwrites the same files with the same contents.
fn test_config(ext: &str, agg_base: &str) -> Config {
    Config {
        summary_dir: "/tmp".to_string(),
        summary_extension: ext.to_string(),
        aggregate_basename: agg_base.to_string(),
        worker_bound: None,
    }
}

fn write_tsv(p: &str, rows: &[&[&str]]) {
    let mut w = csv::Writer::from_file(p).expect("output file").delimiter(b'\t');
    for row in rows {
        w.write(row.iter().copied()).unwrap();
    }
    w.flush().unwrap();
}

/// The header row and the data rows of a tab-separated file, as strings.
fn read_file_rows(p: &str) -> (Vec<String>, Vec<Vec<String>>) {
    let mut input = quick_csv::Csv::from_file(p)
        .expect("input file")
        .delimiter(b'\t')
        .has_header(true);
    let headers = input.headers();
    let mut rows = Vec::new();
    while let Some(row) = input.next() {
        let row = row.unwrap();
        rows.push(row.columns().unwrap().map(|c| c.to_string()).collect());
    }
    (headers, rows)
}

fn map_inputs(cfg: &Config, inputs: &[String], worker_bound: Option<u32>) {
    let tasks = plan_tasks(cfg, &inputs.to_vec()).unwrap();
    let mut prepared = Vec::new();
    for t in &tasks {
        let input = quick_csv::Csv::from_file(&t.input)
            .expect("input file")
            .delimiter(b'\t')
            .has_header(true);
        let output = csv::Writer::from_file(&t.output).expect("output file").delimiter(b'\t');
        prepared.push(PreparedTask { input, output });
    }
    run_map_stage(&RowCountOp, worker_bound, prepared);
}

fn run_aggregation(cfg: &Config) -> u64 {
    let files = summary_files(cfg).unwrap();
    let mut readers = Vec::new();
    for f in &files {
        let reader = quick_csv::Csv::from_file(f)
            .expect("summary file")
            .delimiter(b'\t')
            .has_header(true);
        readers.push(reader);
    }
    let mut writer = csv::Writer::from_file(cfg.aggregate_filename())
        .expect("aggregate file")
        .delimiter(b'\t');
    let acc = aggregate_prepared(&RowCountOp, readers, &mut writer);
    writer.flush().unwrap();
    acc
}

#[test]
fn end_to_end_two_files_aggregate_to_two_rows() {
    let cfg = test_config("e2etsv", "knrs_e2e_agg");
    write_tsv("/tmp/knrs_e2e_a.csv", &[&["h1", "h2"], &["a1", "a2"]]);
    write_tsv("/tmp/knrs_e2e_b.csv", &[&["h1", "h2"], &["b1", "b2"]]);
    let inputs = vec!["/tmp/knrs_e2e_a.csv".to_string(), "/tmp/knrs_e2e_b.csv".to_string()];

    map_inputs(&cfg, &inputs, None);
    let (h_a, rows_a) = read_file_rows("/tmp/knrs_e2e_a.e2etsv");
    assert_eq!(h_a, vec!["h1", "h2"]);
    assert_eq!(rows_a, vec![vec!["a1", "a2"]]);
    let (h_b, rows_b) = read_file_rows("/tmp/knrs_e2e_b.e2etsv");
    assert_eq!(h_b, vec!["h1", "h2"]);
    assert_eq!(rows_b, vec![vec!["b1", "b2"]]);

    let acc = run_aggregation(&cfg);
    assert_eq!(acc, 2);
    let (agg_header, agg_rows) = read_file_rows(&cfg.aggregate_filename());
    assert_eq!(agg_header, vec!["rows"]);
    assert_eq!(agg_rows, vec![vec!["2"]]);
}

#[test]
fn worker_bound_does_not_change_summary_files() {
    write_tsv("/tmp/knrs_bound_a.csv", &[&["h"], &["1"], &["2"]]);
    write_tsv("/tmp/knrs_bound_b.csv", &[&["h"], &["3"]]);
    write_tsv("/tmp/knrs_bound_c.csv", &[&["h"], &["4"], &["5"]]);
    let inputs = vec![
        "/tmp/knrs_bound_a.csv".to_string(),
        "/tmp/knrs_bound_b.csv".to_string(),
        "/tmp/knrs_bound_c.csv".to_string(),
    ];

    let seq_cfg = test_config("seqtsv", "knrs_bound_agg");
    map_inputs(&seq_cfg, &inputs, None);
    let pool_cfg = test_config("pooltsv", "knrs_bound_agg");
    map_inputs(&pool_cfg, &inputs, Some(2));

    for name in ["knrs_bound_a", "knrs_bound_b", "knrs_bound_c"] {
        let seq = read_file_rows(&format!("/tmp/{name}.seqtsv"));
        let pool = read_file_rows(&format!("/tmp/{name}.pooltsv"));
        assert_eq!(seq, pool);
    }
}

#[test]
fn single_worker_pool_matches_sequential_run() {
    write_tsv("/tmp/knrs_one_a.csv", &[&["h"], &["1"], &["2"]]);
    let inputs = vec!["/tmp/knrs_one_a.csv".to_string()];
    let seq_cfg = test_config("onsqtsv", "knrs_one_agg");
    map_inputs(&seq_cfg, &inputs, None);
    let pool_cfg = test_config("onpltsv", "knrs_one_agg");
    map_inputs(&pool_cfg, &inputs, Some(1));
    assert_eq!(
        read_file_rows("/tmp/knrs_one_a.onsqtsv"),
        read_file_rows("/tmp/knrs_one_a.onpltsv")
    );
}

#[test]
fn empty_input_set_aggregates_to_zero() {
    let cfg = test_config("emptsv", "knrs_empty_agg");
    map_inputs(&cfg, &[], None);
    map_inputs(&cfg, &[], Some(2));
    let acc = run_aggregation(&cfg);
    assert_eq!(acc, 0);
    let (agg_header, agg_rows) = read_file_rows(&cfg.aggregate_filename());
    assert_eq!(agg_header, vec!["rows"]);
    assert_eq!(agg_rows, vec![vec!["0"]]);
}

#[test]
fn discovery_skips_stale_aggregate_file() {
    let cfg = test_config("disctsv", "knrs_disc_agg");
    write_tsv("/tmp/knrs_disc_a.disctsv", &[&["h"], &["1"]]);
    write_tsv("/tmp/knrs_disc_b.disctsv", &[&["h"], &["2"]]);
    // A stale aggregate from a prior run sits right beside the summaries.
    write_tsv(&cfg.aggregate_filename(), &[&["rows"], &["9"]]);
    assert_eq!(cfg.aggregate_filename(), "/tmp/knrs_disc_agg.disctsv");

    let mut files = summary_files(&cfg).unwrap();
    files.sort();
    assert_eq!(
        files,
        vec!["/tmp/knrs_disc_a.disctsv".to_string(), "/tmp/knrs_disc_b.disctsv".to_string()]
    );
}

#[test]
fn aggregation_twice_gives_identical_output() {
    let cfg = test_config("twicetsv", "knrs_twice_agg");
    write_tsv("/tmp/knrs_twice_a.csv", &[&["h"], &["1"], &["2"]]);
    write_tsv("/tmp/knrs_twice_b.csv", &[&["h"], &["3"]]);
    let inputs =
        vec!["/tmp/knrs_twice_a.csv".to_string(), "/tmp/knrs_twice_b.csv".to_string()];
    map_inputs(&cfg, &inputs, None);

    let first_acc = run_aggregation(&cfg);
    let first = read_file_rows(&cfg.aggregate_filename());
    // The stale aggregate now sits in the summary directory; a rerun must
    // neither fold it in nor change the output.
    let second_acc = run_aggregation(&cfg);
    let second = read_file_rows(&cfg.aggregate_filename());
    assert_eq!(first_acc, 3);
    assert_eq!(second_acc, first_acc);
    assert_eq!(second, first);
}
