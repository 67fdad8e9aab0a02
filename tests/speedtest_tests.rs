use speedtest::catalog::{closest_servers, discover};
use speedtest::config::parse_id_list;
use speedtest::documents::{attribute, config_document, server_records, XmlElement};
use speedtest::error::SpeedtestError;
use speedtest::http::{HttpClient, Method};
use speedtest::latency::{
    extract_base_url, latency_url, probe_outcome, select_best, server_latency, PROBE_PENALTY_US,
};
use speedtest::share::{share_url_from_pairs, share_form_with_digest};
use speedtest::speedtest::Speedtest;
use speedtest::throughput::{
    download_urls, generate_upload_data, speed_bps, upload_payload, upload_sizes, Worker,
};
use speedtest::types::{
    Client, Config, DownloadConfig, ServerConfig, ServerXml, ServersContainer, Server,
    SpeedtestConfig, UploadConfig,
};
use speedtest::utils::{
    add_query_param, cache_bust, contains_char, parse_unsigned_max, trim_str,
};

fn client(ip: &str) -> Client {
    Client {
        ip: ip.to_string(),
        lat: "40.7128".to_string(),
        lon: "-74.0060".to_string(),
        isp: "Example ISP".to_string(),
        isp_rating: None,
        isp_dl_avg: None,
        isp_ul_avg: None,
        country: Some("US".to_string()),
    }
}

fn document(ip: &str) -> SpeedtestConfig {
    SpeedtestConfig {
        client: client(ip),
        server_config: ServerConfig {
            ignore_ids: "7, 8,x".to_string(),
            thread_count: "4".to_string(),
        },
        download: DownloadConfig {
            test_length: "10".to_string(),
            threads_per_url: "4".to_string(),
        },
        upload: UploadConfig {
            test_length: "10".to_string(),
            threads: "2".to_string(),
            max_chunk_count: "50".to_string(),
            ratio: "5".to_string(),
        },
    }
}

fn record(id: &str, url: &str) -> ServerXml {
    ServerXml {
        id: id.to_string(),
        sponsor: format!("Sponsor {}", id),
        name: format!("City {}", id),
        country: "Country".to_string(),
        country_code: "CC".to_string(),
        host: "host.example:8080".to_string(),
        url: url.to_string(),
        lat: "1.0".to_string(),
        lon: "2.0".to_string(),
    }
}

fn server(id: u32, d: u64) -> Server {
    Server {
        id,
        sponsor: format!("S{}", id),
        name: format!("N{}", id),
        country: "C".to_string(),
        country_code: "CC".to_string(),
        host: "h".to_string(),
        url: format!("http://s{}.example/speedtest/upload.php", id),
        lat: "0".to_string(),
        lon: "0".to_string(),
        d,
        latency: 0,
    }
}

fn loaded_session() -> Speedtest {
    let mut st = Speedtest::new(10, false, None).unwrap();
    st.get_config(&document("192.0.2.1")).unwrap();
    st
}

#[test]
fn test_add_query_param() {
    assert_eq!(
        add_query_param("http://example.com", "foo=bar"),
        "http://example.com?foo=bar"
    );
    assert_eq!(
        add_query_param("http://example.com?baz=qux", "foo=bar"),
        "http://example.com?baz=qux&foo=bar"
    );
}

#[test]
fn test_generate_upload_data() {
    let data = generate_upload_data(100);
    assert_eq!(data.len(), 100);
    assert!(data.starts_with(b"content1="));
}

#[test]
fn test_speedtest_creation() {
    let st = Speedtest::new(10, false, None);
    assert!(st.is_ok());
}

#[test]
fn test_build_url() {
    let client = HttpClient::new(10, false, None).unwrap();

    let url = client.build_url("://example.com/test", 1_700_000_000_123);
    assert!(url.starts_with("http://example.com/test?x="));

    let secure_client = HttpClient::new(10, true, None).unwrap();
    let url = secure_client.build_url("://example.com/test", 1_700_000_000_123);
    assert!(url.starts_with("https://example.com/test?x="));

    let url = client.build_url("://example.com/test?foo=bar", 1_700_000_000_123);
    assert!(url.contains("&x="));
}

#[test]
fn build_url_exact_and_absolute() {
    let client = HttpClient::new(10, false, None).unwrap();
    assert_eq!(client.build_url("://a.example/x", 42), "http://a.example/x?x=42");
    assert_eq!(client.build_url("http://a.example/x", 42), "http://a.example/x");
}

#[test]
fn requests_carry_method_headers_and_timeout() {
    let client = HttpClient::new(7, true, None).unwrap();
    let get = client.get("://a.example/l", 5);
    assert_eq!(get.method, Method::Get);
    assert_eq!(get.url, "https://a.example/l?x=5");
    assert_eq!(get.timeout_secs, 7);
    assert!(get.body.is_empty());
    let post = client.post("http://a.example/up", b"abc".to_vec(), 5);
    assert_eq!(post.method, Method::Post);
    assert_eq!(post.url, "http://a.example/up");
    assert_eq!(post.body, b"abc".to_vec());
    assert_eq!(post.headers.len(), 2);
    assert_eq!(post.headers[0].0, "Content-Type");
    assert_eq!(post.headers[0].1, "application/x-www-form-urlencoded");
    assert_eq!(post.headers[1].1, "no-cache");
}

#[test]
fn decimal_text_and_cache_bust() {
    assert_eq!(cache_bust(0), "x=0");
    assert_eq!(cache_bust(1234567890), "x=1234567890");
    assert_eq!(cache_bust(u64::MAX), "x=18446744073709551615");
    assert_eq!(cache_bust(1700000000123), "x=1700000000123");
}

#[test]
fn parse_unsigned_like_str_parse() {
    assert_eq!(parse_unsigned_max("42", 100), Some(42));
    assert_eq!(parse_unsigned_max("+42", 100), Some(42));
    assert_eq!(parse_unsigned_max("101", 100), None);
    assert_eq!(parse_unsigned_max("", 100), None);
    assert_eq!(parse_unsigned_max("+", 100), None);
    assert_eq!(parse_unsigned_max(" 4", 100), None);
    assert_eq!(parse_unsigned_max("4294967295", 4294967295), Some(4294967295));
    assert_eq!(parse_unsigned_max("4294967296", 4294967295), None);
    assert_eq!(parse_unsigned_max("99999999999999999999999", u64::MAX), None);
}

#[test]
fn trim_and_contains() {
    assert_eq!(trim_str("  test=test\r\n"), "test=test");
    assert_eq!(trim_str("\u{3000}a b\t"), "a b");
    assert_eq!(trim_str("   "), "");
    assert!(contains_char("a?b", '?'));
    assert!(!contains_char("ab", '?'));
}

#[test]
fn id_list_skips_unreadable_fields() {
    assert_eq!(parse_id_list("7, 8,x,,+9, 4294967296"), vec![7, 8, 9]);
    assert_eq!(parse_id_list(""), Vec::<u32>::new());
}

#[test]
fn config_from_document_derives_plan() {
    let c = Config::from_document(&document("192.0.2.1")).unwrap();
    assert_eq!(c.ignore_servers, vec![7, 8]);
    assert_eq!(c.sizes.upload, vec![524288, 1048576, 7340032]);
    assert_eq!(c.sizes.download.len(), 10);
    assert_eq!(c.counts.upload, 17);
    assert_eq!(c.upload_max, 51);
    assert_eq!(c.counts.download, 4);
    assert_eq!(c.threads.download, 8);
    assert_eq!(c.threads.upload, 2);
    assert_eq!(c.length.upload, 10);
    assert_eq!(c.client.ip, "192.0.2.1");
}

#[test]
fn config_defaults_and_errors() {
    let mut doc = document("192.0.2.1");
    doc.upload.ratio = "junk".to_string();
    doc.upload.max_chunk_count = String::new();
    doc.upload.threads = String::new();
    let c = Config::from_document(&doc).unwrap();
    assert_eq!(c.sizes.upload.len(), 7);
    assert_eq!(c.counts.upload, 1);
    assert_eq!(c.upload_max, 7);
    assert_eq!(c.threads.upload, 8);

    let missing_ip = Config::from_document(&document(""));
    assert!(matches!(missing_ip, Err(SpeedtestError::ConfigRetrievalError(_))));

    let mut zero = document("192.0.2.1");
    zero.download.test_length = "0".to_string();
    assert!(matches!(Config::from_document(&zero), Err(SpeedtestError::ConfigError(_))));

    let mut huge = document("192.0.2.1");
    huge.server_config.thread_count = u64::MAX.to_string();
    assert!(matches!(Config::from_document(&huge), Err(SpeedtestError::ConfigError(_))));
}

#[test]
fn discovery_filters_and_skips_malformed() {
    let records = vec![
        record("5", "http://a/x"),
        record("abc", "http://b/x"),
        record("0", "http://c/x"),
        record("7", "http://d/x"),
        record("6", "http://e/x"),
        record("9", "http://f/x"),
    ];
    let distances = vec![Some(1000), Some(10), Some(10), Some(20), None, Some(30)];
    let found = discover(&records, &distances, &vec![7], None, Some(&vec![9]));
    let ids: Vec<u32> = found.iter().map(|s| s.id).collect();
    assert_eq!(ids, vec![5]);
    assert_eq!(found[0].d, 1000);
    assert_eq!(found[0].latency, 0);
    assert_eq!(found[0].url, "http://a/x");
}

#[test]
fn discovery_with_server_ids_keeps_present_ones() {
    let mut st = loaded_session();
    let batch = ServersContainer { server: vec![record("5", "http://a/x"), record("6", "http://b/x")] };
    let distances = vec![Some(100), Some(200)];
    let r = st.get_servers(&batch, &distances, Some(&vec![5, 9]), None);
    assert_eq!(r, Ok(1));
    assert_eq!(st.servers.len(), 1);
    assert_eq!(st.servers[0].id, 5);
}

#[test]
fn discovery_with_absent_server_id_fails() {
    let mut st = loaded_session();
    let batch = ServersContainer { server: vec![record("5", "http://a/x")] };
    let r = st.get_servers(&batch, &vec![Some(100)], Some(&vec![99]), None);
    assert_eq!(r, Err(SpeedtestError::NoMatchedServers));
    assert!(st.servers.is_empty());
}

#[test]
fn discovery_without_filters_may_be_empty() {
    let mut st = loaded_session();
    let batch = ServersContainer { server: vec![record("7", "http://a/x")] };
    assert_eq!(st.get_servers(&batch, &vec![Some(1)], None, None), Ok(0));
}

#[test]
fn discovery_needs_configuration() {
    let mut st = Speedtest::new(10, false, None).unwrap();
    let batch = ServersContainer { server: vec![record("5", "http://a/x")] };
    let r = st.get_servers(&batch, &vec![Some(1)], None, None);
    assert!(matches!(r, Err(SpeedtestError::ConfigError(_))));
}

#[test]
fn closest_is_sorted_stable_and_limited() {
    let servers = vec![server(1, 300), server(2, 100), server(3, 200), server(4, 100), server(5, 50)];
    let c = closest_servers(&servers, 4);
    let ids: Vec<u32> = c.iter().map(|s| s.id).collect();
    assert_eq!(ids, vec![5, 2, 4, 3]);
    assert!(c.windows(2).all(|w| w[0].d <= w[1].d));
    assert_eq!(closest_servers(&servers, 10).len(), 5);
    assert!(closest_servers(&Vec::new(), 3).is_empty());
}

#[test]
fn session_closest_and_candidates() {
    let mut st = loaded_session();
    let batch = ServersContainer {
        server: (1..=7).map(|i| record(&(i + 10).to_string(), "http://a/x")).collect(),
    };
    let distances: Vec<Option<u64>> = (1..=7u64).map(|i| Some(1000 - i)).collect();
    assert_eq!(st.get_servers(&batch, &distances, None, None), Ok(7));
    let cands = st.candidates();
    let ids: Vec<u32> = cands.iter().map(|s| s.id).collect();
    assert_eq!(ids, vec![17, 16, 15, 14, 13]);
    let two = st.get_closest_servers(2);
    assert_eq!(two.len(), 2);
    assert_eq!(st.candidates().len(), 2);
}

#[test]
fn probe_outcomes() {
    assert_eq!(probe_outcome(Some(" test=test\n"), 1500), Some(1500));
    assert_eq!(probe_outcome(Some("test=tes"), 1500), None);
    assert_eq!(probe_outcome(Some("<html>"), 1500), None);
    assert_eq!(probe_outcome(None, 1500), None);
}

#[test]
fn mean_latency_counts_penalty() {
    let probes = vec![Some(10_000), Some(12_000), None];
    let expected = (10_000 + 12_000 + PROBE_PENALTY_US) / 3;
    assert_eq!(server_latency(&probes), Some(expected));
    assert_eq!(server_latency(&probes), Some(1_200_007_333));
    assert_eq!(server_latency(&vec![Some(1), Some(2)]), Some(2));
    assert_eq!(server_latency(&vec![None, None, None]), None);
    assert_eq!(server_latency(&Vec::new()), None);
}

#[test]
fn unreachable_only_candidate_fails_selection() {
    let mut st = loaded_session();
    let cands = vec![server(1, 10)];
    let r = st.determine_best_server(&cands, &vec![vec![None, None, None]]);
    assert_eq!(r.err(), Some(SpeedtestError::BestServerFailure));
    assert!(st.best.is_none());
    assert!(matches!(st.determine_best_server(&Vec::new(), &Vec::new()), Err(SpeedtestError::BestServerFailure)));
}

#[test]
fn unreachable_candidate_is_excluded() {
    assert_eq!(select_best(&vec![vec![None, None, None], vec![Some(900_000_000)]], 2), Some((1, 900_000_000)));
}

#[test]
fn lower_latency_candidate_wins() {
    let mut st = loaded_session();
    let cands = vec![server(1, 10), server(2, 20)];
    let probes = vec![vec![Some(22_000); 3], vec![Some(15_000); 3]];
    let best = st.determine_best_server(&cands, &probes).unwrap();
    assert_eq!(best.id, 2);
    assert_eq!(best.latency, 15_000);
    assert_eq!(st.results.ping, 15_000);
    assert_eq!(st.results.server.id, 2);
    assert_eq!(st.best.as_ref().unwrap().id, 2);
    let tie = vec![vec![Some(5); 3], vec![Some(5); 3]];
    assert_eq!(select_best(&tie, 2), Some((0, 5)));
}

#[test]
fn latency_urls() {
    assert_eq!(extract_base_url("http://h.example/speedtest/upload.php"), "http://h.example/speedtest");
    assert_eq!(extract_base_url("nopath"), "nopath");
    assert_eq!(
        latency_url("http://h.example/speedtest/upload.php", 1700, 2),
        "http://h.example/speedtest/latency.txt?x=1700.2"
    );
}

#[test]
fn download_work_list() {
    let urls = download_urls("http://h/speedtest/upload.php", &vec![350, 500], 2);
    assert_eq!(
        urls,
        vec![
            "http://h/speedtest/random350x350.jpg",
            "http://h/speedtest/random350x350.jpg",
            "http://h/speedtest/random500x500.jpg",
            "http://h/speedtest/random500x500.jpg",
        ]
    );
    assert!(download_urls("http://h/x", &vec![350], 0).is_empty());
}

#[test]
fn upload_work_list_is_capped() {
    assert_eq!(upload_sizes(&vec![1, 2], 3, 4), vec![1, 1, 1, 2]);
    assert_eq!(upload_sizes(&vec![1, 2], 1, 10), vec![1, 2]);
    assert_eq!(upload_payload(&vec![12], 0).unwrap(), b"content1=012".to_vec());
    assert!(upload_payload(&vec![12], 1).is_none());
}

#[test]
fn payload_has_exact_length_and_marker() {
    for len in [9usize, 10, 45, 46, 100, 32768] {
        let data = generate_upload_data(len);
        assert_eq!(data.len(), len);
        assert!(data.starts_with(b"content1="));
    }
    let data = generate_upload_data(50);
    assert_eq!(&data[9..], b"0123456789ABCDEFGHIJKLMNOPQRSTUVWXYZ01234".as_slice());
    assert_eq!(generate_upload_data(5), b"conte".to_vec());
    assert!(generate_upload_data(0).is_empty());
}

#[test]
fn workers_stride_and_stop() {
    let mut w = Worker::upload(1, 3, 5);
    let mut seen = Vec::new();
    for _ in 0..4 {
        seen.push(w.next_request(false).unwrap());
    }
    assert_eq!(seen, vec![1, 4, 1, 4]);
    assert_eq!(w.next_request(true), None);
    assert_eq!(w.next_request(true), None);
    let mut far = Worker::upload(7, 8, 3);
    assert_eq!(far.next_request(false), Some(1));
    let mut d = Worker::download(2);
    assert_eq!(d.next_request(false), Some(0));
    assert_eq!(d.next_request(false), Some(1));
    assert_eq!(d.next_request(false), Some(0));
}

#[test]
fn throughput_with_fixed_payload_transport() {
    let payload_size: u64 = 250_000;
    let work = vec![String::from("a"), String::from("b")];
    let mut workers: Vec<Worker> = (0..4).map(|_| Worker::download(work.len())).collect();
    let mut total: u64 = 0;
    let mut calls: u64 = 0;
    for round in 0..10 {
        let stop = round >= 6;
        for w in workers.iter_mut() {
            if let Some(i) = w.next_request(stop) {
                assert!(i < work.len());
                calls += 1;
                total += payload_size;
            }
        }
    }
    assert_eq!(calls, 24);
    assert_eq!(total, payload_size * calls);
    let speed = speed_bps(total, 1_000_000);
    assert_eq!(speed, total * 8);
    assert_eq!(speed_bps(1000, 3_000_000), 2666);
    assert_eq!(speed_bps(u64::MAX, 1), u64::MAX);
}

#[test]
fn plans_need_config_and_best_server() {
    let st = Speedtest::new(10, false, None).unwrap();
    assert!(matches!(st.download_plan(), Err(SpeedtestError::ConfigError(_))));
    let mut st = loaded_session();
    assert_eq!(st.download_plan().err(), Some(SpeedtestError::MissingBestServer));
    assert_eq!(st.upload_plan().err(), Some(SpeedtestError::MissingBestServer));
    assert!(st.get_results().is_none());
    st.determine_best_server(&vec![server(3, 10)], &vec![vec![Some(4_000)]]).unwrap();
    let down = st.download_plan().unwrap();
    assert_eq!(down.urls.len(), 40);
    assert_eq!(down.urls[0], "http://s3.example/speedtest/random350x350.jpg");
    assert_eq!(down.threads, 8);
    assert_eq!(down.seconds, 10);
    let up = st.upload_plan().unwrap();
    assert_eq!(up.sizes.len(), 51);
    assert_eq!(up.url, "http://s3.example/speedtest/upload.php");
    assert_eq!(up.threads, 2);
    assert!(st.get_results().is_some());
}

#[test]
fn finishing_tests_records_results() {
    let mut st = loaded_session();
    let slow = st.finish_download(10_000, 1_000_000);
    assert_eq!(slow, 80_000);
    assert_eq!(st.config.as_ref().unwrap().threads.upload, 2);
    let fast = st.finish_download(1_000_000, 2_000_000);
    assert_eq!(fast, 4_000_000);
    assert_eq!(st.results.bytes_received, 1_000_000);
    assert_eq!(st.results.download, 4_000_000);
    assert_eq!(st.config.as_ref().unwrap().threads.upload, 8);
    let up = st.finish_upload(500, 1_000_000);
    assert_eq!(up, 4000);
    assert_eq!(st.results.bytes_sent, 500);
    assert_eq!(st.results.upload, 4000);
}

#[test]
fn config_is_loaded_once() {
    let mut st = loaded_session();
    assert_eq!(st.get_config(&document("")), Ok(()));
    assert_eq!(st.config.as_ref().unwrap().client.ip, "192.0.2.1");
    let mut fresh = Speedtest::new(10, false, None).unwrap();
    assert!(matches!(fresh.get_config(&document("")), Err(SpeedtestError::ConfigRetrievalError(_))));
    assert!(fresh.config.is_none());
}

#[test]
fn share_form_and_answer() {
    let mut st = loaded_session();
    st.determine_best_server(&vec![server(42, 10)], &vec![vec![Some(12_345)]]).unwrap();
    st.finish_download(1_234_567, 1_000_000);
    st.results.download = 9_876_543;
    st.results.upload = 3_456_789;
    st.results.bytes_sent = 11;
    let form = st.share_form();
    assert_eq!(
        form,
        "recommendedserverid=42&ping=12&screenresolution=&promo=&download=9877&screendpi=&upload=3457\
&testmethod=http&hash=22614b0d9cbcaeb99840b64a7bde0d0f&touchscreen=none&startmode=pingselect\
&accuracy=1&bytesreceived=1234567&bytessent=11&serverid=42"
    );
    let digest = vec![0u8, 1, 0xab, 0xff];
    assert!(share_form_with_digest(&st.results, &digest).contains("&hash=0001abff&"));

    let url = st.record_share("resultid=123&x=1").unwrap();
    assert_eq!(url, "http://www.speedtest.net/result/123.png");
    assert_eq!(st.results.share.as_deref(), Some("http://www.speedtest.net/result/123.png"));
    let decoded = st.record_share("a=b&resultid=4%205&resultid=6+7").unwrap();
    assert_eq!(decoded, "http://www.speedtest.net/result/6 7.png");
    assert!(matches!(st.record_share("error=1"), Err(SpeedtestError::ShareResultsSubmitFailure(_))));
}

#[test]
fn share_url_from_pairs_takes_last() {
    let pairs = vec![
        ("resultid".to_string(), "1".to_string()),
        ("resultid".to_string(), "2".to_string()),
    ];
    assert_eq!(share_url_from_pairs(&pairs), Ok("http://www.speedtest.net/result/2.png".to_string()));
    assert!(share_url_from_pairs(&Vec::new()).is_err());
}

fn element(name: &str, attrs: &[(&str, &str)]) -> XmlElement {
    XmlElement {
        name: name.to_string(),
        attributes: attrs.iter().map(|(k, v)| (k.to_string(), v.to_string())).collect(),
    }
}

#[test]
fn config_document_reads_last_elements() {
    let elements = vec![
        element("client", &[("ip", "10.0.0.1")]),
        element("client", &[("ip", "192.0.2.7"), ("isp", "Net"), ("ip", "192.0.2.8"), ("country", "NL")]),
        element("server-config", &[("ignoreids", "1,2"), ("threadcount", "3")]),
        element("download", &[("testlength", "12"), ("threadsperurl", "2")]),
        element("upload", &[("testlength", "9"), ("ratio", "2"), ("maxchunkcount", "20"), ("threads", "4")]),
    ];
    let doc = config_document(&elements);
    assert_eq!(doc.client.ip, "192.0.2.8");
    assert_eq!(doc.client.isp, "Net");
    assert_eq!(doc.client.lat, "");
    assert_eq!(doc.client.country.as_deref(), Some("NL"));
    assert_eq!(doc.client.isp_rating, None);
    assert_eq!(doc.server_config.ignore_ids, "1,2");
    assert_eq!(doc.server_config.thread_count, "3");
    assert_eq!(doc.download.test_length, "12");
    assert_eq!(doc.upload.ratio, "2");
    let c = Config::from_document(&doc).unwrap();
    assert_eq!(c.threads.download, 6);
    assert_eq!(c.sizes.upload.len(), 6);
    assert_eq!(c.counts.upload, 4);
    assert_eq!(c.upload_max, 24);
    assert_eq!(c.length.download, 12);
}

#[test]
fn server_records_from_server_elements() {
    let elements = vec![
        element("settings", &[("id", "1")]),
        element("server", &[("id", "5"), ("url", "http://a/x"), ("lat", "1.5"), ("cc", "NL")]),
        element("server", &[("id", "6"), ("sponsor", "B")]),
    ];
    let batch = server_records(&elements);
    assert_eq!(batch.server.len(), 2);
    assert_eq!(batch.server[0].id, "5");
    assert_eq!(batch.server[0].url, "http://a/x");
    assert_eq!(batch.server[0].country_code, "NL");
    assert_eq!(batch.server[0].sponsor, "");
    assert_eq!(batch.server[1].sponsor, "B");
    assert_eq!(attribute(&elements, "server", "sponsor").as_deref(), Some("B"));
    assert_eq!(attribute(&elements, "missing", "id"), None);
}
