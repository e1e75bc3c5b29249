use plug_dts::batch::{step, BatchAction, BatchEvent, BatchPhase};
use plug_dts::apporder::{AppOrder, PageOutcome, RecordFailure, SupplierRecord, WebConfig};
use plug_dts::decimal::{i64_text, lower_hex, u64_text};
use plug_dts::paging::{page_count, page_offset};
use plug_dts::reply::{i64_from_parts, callback_outcome, parse_callback_content, parse_submit_content, read_reply, submit_outcome, ParseError};
use plug_dts::signing::{encode_token, sign_token, signed_form};

fn config() -> WebConfig {
    WebConfig {
        sn: "site-1".to_string(),
        api_domain: "http://127.0.0.1:8090/Route.axd".to_string(),
        db_id: 7,
        app_id: 12,
        app_name: "Mall".to_string(),
    }
}

fn order() -> AppOrder {
    AppOrder::new(&config(), 1, 3, "operator", "T1".to_string())
}

fn value<'a>(form: &'a [(String, String)], key: &str) -> Option<&'a str> {
    form.iter().find(|(k, _)| k == key).map(|(_, v)| v.as_str())
}

#[test]
fn page_count_rounds_up() {
    assert_eq!(page_count(120, 50), 3);
    assert_eq!(page_count(100, 50), 2);
    assert_eq!(page_count(1, 50), 1);
    assert_eq!(page_count(u64::MAX, 1), u64::MAX);
    assert_eq!(page_count(u64::MAX, 2), u64::MAX / 2 + 1);
}

#[test]
fn page_count_zero_items() {
    assert_eq!(page_count(0, 50), 0);
}

#[test]
fn page_offsets() {
    assert_eq!(page_offset(50, 2), Some(100));
    assert_eq!(page_offset(u64::MAX, 2), None);
}

#[test]
fn decimal_text() {
    assert_eq!(u64_text(0), "0");
    assert_eq!(u64_text(987654321), "987654321");
    assert_eq!(u64_text(u64::MAX), u64::MAX.to_string());
    assert_eq!(i64_text(-5), "-5");
    assert_eq!(i64_text(i64::MIN), i64::MIN.to_string());
}

#[test]
fn hex_text() {
    assert_eq!(lower_hex(&[0x00, 0x0f, 0xa5, 0xff]), "000fa5ff");
    assert_eq!(lower_hex(&[]), "");
}

#[test]
fn token_signature_is_digest_of_raw_token() {
    let expected = format!("{:x}", md5::compute("rwxkj:T1".as_bytes()));
    assert_eq!(sign_token("T1"), expected);
    let other = format!("{:x}", md5::compute("rwxkj:a b".as_bytes()));
    assert_eq!(sign_token("a b"), other);
}

#[test]
fn token_is_percent_encoded() {
    assert_eq!(encode_token("T1"), "T1");
    assert_eq!(encode_token("a b/c+=é"), "a%20b%2Fc%2B%3D%C3%A9");
}

#[test]
fn signed_form_appends_protocol_fields() {
    let fields = vec![("OrderIds".to_string(), "5".to_string())];
    let form = signed_form(&fields, "site-1", "aus.package.order.callback", "a b");
    let keys: Vec<&str> = form.iter().map(|(k, _)| k.as_str()).collect();
    assert_eq!(keys, vec!["OrderIds", "SN", "Method", "V", "Token", "Md5"]);
    assert_eq!(value(&form, "SN"), Some("site-1"));
    assert_eq!(value(&form, "Method"), Some("aus.package.order.callback"));
    assert_eq!(value(&form, "V"), Some("2.0"));
    assert_eq!(value(&form, "Token"), Some("a%20b"));
    let expected = format!("{:x}", md5::compute("rwxkj:a b".as_bytes()));
    assert_eq!(value(&form, "Md5"), Some(expected.as_str()));
}

#[test]
fn submit_reply_success() {
    let r = parse_submit_content(&Ok(r#"{"Success":true,"Content":{"orderId":987654321}}"#.to_string()));
    assert!(matches!(r, Ok(987654321)));
}

#[test]
fn submit_reply_rejected() {
    let r = parse_submit_content(&Ok(r#"{"Success":false,"Message":"dup"}"#.to_string()));
    assert!(matches!(r, Err(ParseError::Rejected(ref m)) if m == "dup"));
}

#[test]
fn submit_reply_malformed() {
    let r = parse_submit_content(&Ok("not json {".to_string()));
    assert!(matches!(r, Err(ParseError::Malformed)));
}

#[test]
fn submit_reply_missing_order_id() {
    let r = parse_submit_content(&Ok(r#"{"Success":true,"Content":{}}"#.to_string()));
    assert!(matches!(r, Err(ParseError::MissingField)));
    let r = parse_submit_content(&Ok(r#"{"Success":true,"Content":{"orderId":"x"}}"#.to_string()));
    assert!(matches!(r, Err(ParseError::MissingField)));
}

#[test]
fn submit_transport_error() {
    let r = parse_submit_content(&Err("connection refused".to_string()));
    assert!(matches!(r, Err(ParseError::Transport(ref m)) if m == "connection refused"));
}

#[test]
fn success_must_be_boolean_true() {
    let r = parse_submit_content(&Ok(r#"{"Success":"true","Content":{"orderId":1},"Message":7}"#.to_string()));
    assert!(matches!(r, Err(ParseError::Rejected(ref m)) if m == "7"));
}

#[test]
fn callback_replies() {
    assert!(matches!(parse_callback_content(&Ok(r#"{"Success":true}"#.to_string())), Ok(())));
    let r = parse_callback_content(&Ok(r#"{"Success":false,"Message":"m","Content":"unpaid"}"#.to_string()));
    assert!(matches!(r, Err(ParseError::Rejected(ref m)) if m == "unpaid"));
    assert!(matches!(parse_callback_content(&Ok("".to_string())), Err(ParseError::Malformed)));
    assert!(matches!(parse_callback_content(&Err("down".to_string())), Err(ParseError::Transport(_))));
}

#[test]
fn reply_fields() {
    let reply = read_reply(r#"{"Success":false,"Message":"dup","Content":null}"#).unwrap();
    assert!(!reply.success);
    assert_eq!(reply.order_id, None);
    assert_eq!(reply.message, "dup");
    assert_eq!(reply.content, "null");
    assert!(matches!(submit_outcome(&reply), Err(ParseError::Rejected(ref m)) if m == "dup"));
    assert!(matches!(callback_outcome(&reply), Err(ParseError::Rejected(ref m)) if m == "null"));
    assert!(read_reply("[1,").is_none());
}

#[test]
fn new_keeps_its_arguments() {
    let o = order();
    assert_eq!(o.fk_id, 1);
    assert_eq!(o.fk_flag, 3);
    assert_eq!(o.user_name, "operator");
    assert_eq!(o.access_token, "T1");
    assert_eq!(o.web.sn, "site-1");
}

#[test]
fn count_query_and_rows() {
    let o = order();
    let q = o.version_count_query(1003);
    assert!(q.ends_with("appid=1003;"));
    assert!(q.contains("a.fkflag=2"));
    assert_eq!(o.get_version_count(&vec![120, 4]), 120);
    assert_eq!(o.get_version_count(&vec![]), 0);
}

#[test]
fn list_query_pages() {
    let o = order();
    let q = o.list_version_query(1003, 50, 2).unwrap();
    assert!(q.ends_with("appid=1003 limit 100,50;"));
    assert!(o.list_version_query(1003, u64::MAX, 2).is_none());
}

#[test]
fn rows_with_negative_flag_fail_alone() {
    let o = order();
    let rows = vec![(10u64, 2i32, "A".to_string()), (11u64, -1i32, "B".to_string()), (12u64, 0i32, "C".to_string())];
    let (records, failures) = o.get_list_version(&rows);
    assert_eq!(records.len(), 2);
    assert_eq!(records[0].id, 10);
    assert_eq!(records[1].company_name, "C");
    assert_eq!(failures.len(), 1);
    assert!(matches!(failures[0], (11, RecordFailure::InvalidFlag(-1))));
}

#[test]
fn order_fields_for_a_supplier() {
    let o = order();
    let rec = SupplierRecord { id: 42, flag: 2, company_name: "Acme".to_string() };
    let data = o.get_send_data(&rec, 12, "Mall", "upgrade");
    let keys: Vec<&str> = data.iter().map(|(k, _)| k.as_str()).collect();
    assert_eq!(keys, vec!["Flag", "AppId", "AppliedId", "Content", "ReceiveFKId", "ReceiveFKFlag", "Remark", "RunWay", "FKId", "FKFlag", "CompanyName"]);
    assert_eq!(value(&data, "Flag"), Some("Upgrade_Plug_Mall"));
    assert_eq!(value(&data, "AppId"), Some("12"));
    assert_eq!(value(&data, "AppliedId"), Some("0"));
    assert_eq!(value(&data, "ReceiveFKId"), Some("1"));
    assert_eq!(value(&data, "ReceiveFKFlag"), Some("3"));
    assert_eq!(value(&data, "Remark"), Some("upgrade手动批量更新【操作人：任我行科技销售中心;IP=127.0.0.1】"));
    assert_eq!(value(&data, "RunWay"), Some("Wholesale"));
    assert_eq!(value(&data, "FKId"), Some("42"));
    assert_eq!(value(&data, "FKFlag"), Some("2"));
    assert_eq!(value(&data, "CompanyName"), Some("Acme"));
}

#[test]
fn order_fields_of_zero_and_largest_ids() {
    let o = order();
    let rec = SupplierRecord { id: u64::MAX, flag: 0, company_name: String::new() };
    let data = o.get_send_data(&rec, -3, "", "");
    assert_eq!(value(&data, "FKId"), Some("18446744073709551615"));
    assert_eq!(value(&data, "FKFlag"), Some("0"));
    assert_eq!(value(&data, "AppId"), Some("-3"));
}

#[test]
fn decorate_list_keeps_order() {
    let o = order();
    let recs = vec![
        SupplierRecord { id: 5, flag: 2, company_name: "X".to_string() },
        SupplierRecord { id: 6, flag: 2, company_name: "Y".to_string() },
    ];
    let list = o.decorate_list(&recs, 12, "Mall", "upgrade");
    assert_eq!(list.len(), 2);
    assert_eq!(value(&list[1], "FKId"), Some("6"));
    assert!(o.decorate_list(&vec![], 12, "Mall", "upgrade").is_empty());
}

#[test]
fn submission_form_carries_data_and_signature() {
    let o = order();
    let rec = SupplierRecord { id: 42, flag: 2, company_name: "Acme".to_string() };
    let data = o.get_send_data(&rec, 12, "Mall", "upgrade");
    let form = o.submission_form(&data);
    assert_eq!(form.len(), data.len() + 6);
    assert_eq!(value(&form, "Method"), Some("aus.package.app.submit"));
    let json_text = value(&form, "Data").unwrap();
    let parsed = json::parse(json_text).unwrap();
    assert_eq!(parsed["FKId"].as_str(), Some("42"));
    assert_eq!(parsed["CompanyName"].as_str(), Some("Acme"));
    assert!(json_text.starts_with(r#"{"Flag":"Upgrade_Plug_Mall""#));
    let expected = format!("{:x}", md5::compute("rwxkj:T1".as_bytes()));
    assert_eq!(value(&form, "Md5"), Some(expected.as_str()));
    assert_eq!(value(&form, "Token"), Some("T1"));
}

#[test]
fn callback_form_fields() {
    let o = order();
    let form = o.callback_form(987654321);
    assert_eq!(value(&form, "OrderIds"), Some("987654321"));
    assert_eq!(value(&form, "PayStatus"), Some("true"));
    assert_eq!(value(&form, "Method"), Some("aus.package.order.callback"));
}

#[test]
fn duplicate_run_is_classified_as_failure() {
    let mut first = PageOutcome::new();
    first.record_submission(42, 2, &Ok(r#"{"Success":true,"Content":{"orderId":77}}"#.to_string()));
    assert_eq!(first.submitted, vec![(42, 2, 77)]);
    let mut second = PageOutcome::new();
    second.record_submission(42, 2, &Ok(r#"{"Success":false,"Message":"duplicate order"}"#.to_string()));
    assert!(second.submitted.is_empty());
    assert_eq!(second.failed.len(), 1);
    assert!(matches!(second.failed[0], (42, RecordFailure::Submit(ParseError::Rejected(ref m))) if m == "duplicate order"));
}

#[test]
fn callbacks_are_recorded() {
    let mut page = PageOutcome::new();
    page.record_callback(77, &Ok(r#"{"Success":true}"#.to_string()));
    page.record_callback(78, &Ok(r#"{"Success":false,"Content":"no"}"#.to_string()));
    page.record_callback(79, &Err("timeout".to_string()));
    assert_eq!(page.paid, vec![77]);
    assert_eq!(page.unpaid.len(), 2);
    assert!(matches!(page.unpaid[1], (79, ParseError::Transport(_))));
}

#[test]
fn failed_page_leaves_other_pages_alone() {
    // three pages; the second one's suppliers could not be read
    let o = order();
    let mut pages: Vec<PageOutcome> = Vec::new();
    for page in 0..3u64 {
        let mut outcome = PageOutcome::new();
        if page != 1 {
            let id = 100 + page;
            outcome.record_submission(id, 2, &Ok(format!(r#"{{"Success":true,"Content":{{"orderId":{}}}}}"#, id * 10)));
            let accepted: Vec<(u64, u32, i64)> = outcome.submitted.clone();
            for (_, _, order_id) in accepted {
                let form = o.callback_form(order_id);
                assert_eq!(value(&form, "OrderIds"), Some(format!("{}", order_id).as_str()));
                outcome.record_callback(order_id, &Ok(r#"{"Success":true}"#.to_string()));
            }
        }
        pages.push(outcome);
    }
    assert_eq!(pages[0].paid, vec![1000]);
    assert!(pages[1].submitted.is_empty() && pages[1].paid.is_empty());
    assert_eq!(pages[2].paid, vec![1020]);
}

#[test]
fn failures_are_appended() {
    let mut page = PageOutcome::new();
    page.record_failures(vec![(11, RecordFailure::InvalidFlag(-1))]);
    page.record_submit_outcome(12, 2, Err(ParseError::MissingField));
    page.record_submit_outcome(13, 2, Ok(5));
    page.record_callback_outcome(5, Ok(()));
    assert_eq!(page.failed.len(), 2);
    assert!(matches!(page.failed[1], (12, RecordFailure::Submit(ParseError::MissingField))));
    assert_eq!(page.submitted, vec![(13, 2, 5)]);
    assert_eq!(page.paid, vec![5]);
}

#[test]
fn batch_runs_through_its_phases() {
    let (p, a) = step(BatchPhase::Idle, BatchEvent::Start, 50);
    assert!(matches!(p, BatchPhase::Counting) && matches!(a, BatchAction::CountEligible));
    let (p, a) = step(p, BatchEvent::Counted(120), 50);
    assert!(matches!(a, BatchAction::LaunchWorkers { pages: 3 }));
    let (p, a) = step(p, BatchEvent::WorkerFinished { ok: true }, 50);
    assert!(matches!(a, BatchAction::Wait));
    // the second page fails; the third is still awaited
    let (p, a) = step(p, BatchEvent::WorkerFinished { ok: false }, 50);
    assert!(matches!(a, BatchAction::Wait));
    assert!(matches!(p, BatchPhase::AwaitingWorkers { pages: 3, finished: 2, failed: 1 }));
    let (p, a) = step(p, BatchEvent::WorkerFinished { ok: true }, 50);
    assert!(matches!(a, BatchAction::Finish));
    assert!(matches!(p, BatchPhase::Done { pages: 3, failed: 1 }));
    let (p, a) = step(p, BatchEvent::Start, 50);
    assert!(matches!(a, BatchAction::Ignore) && matches!(p, BatchPhase::Done { .. }));
}

#[test]
fn batch_without_suppliers_is_done_at_once() {
    let (p, a) = step(BatchPhase::Counting, BatchEvent::Counted(0), 50);
    assert!(matches!(a, BatchAction::Finish));
    assert!(matches!(p, BatchPhase::Done { pages: 0, failed: 0 }));
}

#[test]
fn order_id_out_of_range_is_missing() {
    let r = parse_submit_content(&Ok(r#"{"Success":true,"Content":{"orderId":-9223372036854775808}}"#.to_string()));
    assert!(matches!(r, Ok(i64::MIN)));
    let r = parse_submit_content(&Ok(r#"{"Success":true,"Content":{"orderId":18446744073709551615}}"#.to_string()));
    assert!(matches!(r, Err(ParseError::MissingField)));
    let r = parse_submit_content(&Ok(r#"{"Success":true,"Content":{"orderId":9223372036854775808}}"#.to_string()));
    assert!(matches!(r, Err(ParseError::MissingField)));
    let r = parse_submit_content(&Ok(r#"{"Success":true,"Content":{"orderId":1.5}}"#.to_string()));
    assert!(matches!(r, Err(ParseError::MissingField)));
}

#[test]
fn integer_from_number_parts() {
    assert_eq!(i64_from_parts(Some((true, 5, 0))), Some(5));
    assert_eq!(i64_from_parts(Some((false, 5, 0))), Some(-5));
    assert_eq!(i64_from_parts(Some((true, 9223372036854775807, 0))), Some(i64::MAX));
    assert_eq!(i64_from_parts(Some((false, 9223372036854775808, 0))), Some(i64::MIN));
    assert_eq!(i64_from_parts(Some((true, 9223372036854775808, 0))), None);
    assert_eq!(i64_from_parts(Some((true, 5, 1))), None);
    assert_eq!(i64_from_parts(None), None);
}

#[test]
fn refused_page_submits_nothing() {
    let recs = vec![
        SupplierRecord { id: 5, flag: 2, company_name: "X".to_string() },
        SupplierRecord { id: 6, flag: 2, company_name: "Y".to_string() },
    ];
    let responses = vec![
        Ok(r#"{"Success":false,"Message":"duplicate"}"#.to_string()),
        Ok(r#"{"Success":false,"Message":"duplicate"}"#.to_string()),
    ];
    let mut page = PageOutcome::new();
    page.record_submissions(&recs, &responses);
    assert!(page.submitted.is_empty());
    assert_eq!(page.failed.len(), 2);
    assert!(matches!(page.failed[1], (6, RecordFailure::Submit(ParseError::Rejected(ref m))) if m == "duplicate"));
    assert!(page.accepted_orders().is_empty());
}

#[test]
fn mixed_page_records_each_supplier_once() {
    let recs = vec![
        SupplierRecord { id: 5, flag: 2, company_name: "X".to_string() },
        SupplierRecord { id: 6, flag: 2, company_name: "Y".to_string() },
        SupplierRecord { id: 7, flag: 2, company_name: "Z".to_string() },
    ];
    let responses = vec![
        Ok(r#"{"Success":true,"Content":{"orderId":50}}"#.to_string()),
        Err("reset".to_string()),
        Ok(r#"{"Success":true,"Content":{"orderId":70}}"#.to_string()),
    ];
    let mut page = PageOutcome::new();
    page.record_submissions(&recs, &responses);
    assert_eq!(page.submitted, vec![(5, 2, 50), (7, 2, 70)]);
    assert!(matches!(page.failed[0], (6, RecordFailure::Submit(ParseError::Transport(_)))));
    assert_eq!(page.accepted_orders(), vec![50, 70]);
}

#[test]
fn store_failure_gives_an_empty_page() {
    let o = order();
    let (records, forms, outcome) = o.start_page(&Err("gone".to_string()), 12, "Mall", "upgrade");
    assert!(records.is_empty() && forms.is_empty());
    assert!(outcome.failed.is_empty() && outcome.submitted.is_empty());
    let rows = vec![(10u64, 2i32, "A".to_string()), (11u64, -1i32, "B".to_string())];
    let (records, forms, outcome) = o.start_page(&Ok(rows), 12, "Mall", "upgrade");
    assert_eq!(records.len(), 1);
    assert_eq!(forms.len(), 1);
    assert_eq!(value(&forms[0], "FKId"), Some("10"));
    assert_eq!(value(&forms[0], "Method"), Some("aus.package.app.submit"));
    assert_eq!(outcome.failed.len(), 1);
}
