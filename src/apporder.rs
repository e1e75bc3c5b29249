//! Orders of a plugin upgrade for the suppliers of one page: the store
//! queries, the order payloads, the signed request forms, and the sorting of
//! the service's replies into successes and failures.
use vstd::prelude::*;
use vstd::utf8::encode_utf8;
use crate::decimal::{decimal_spec, signed_decimal_spec, u64_text, i64_text};
use crate::paging::page_offset;
use crate::reply::{ParseError, parse_submit_content, parse_callback_content, submit_outcome_spec, submit_result_matches, callback_result_matches, json_accepts, reply_success, reply_message, Reply};
use crate::signing::{Form, form_field, lemma_form_field_at, form_view, protocol_fields, signed_form};

verus! {

/// Site and account settings shared, read-only, by every worker.
pub struct WebConfig {
    pub sn: String,
    pub api_domain: String,
    pub db_id: u64,
    pub app_id: i32,
    pub app_name: String,
}

impl WebConfig {
    /// A copy of the settings.
    pub fn copy(&self) -> (r: WebConfig)
        ensures
            r == *self,
    {
        WebConfig {
            sn: self.sn.clone(),
            api_domain: self.api_domain.clone(),
            db_id: self.db_id,
            app_id: self.app_id,
            app_name: self.app_name.clone(),
        }
    }
}

/// One supplier that the upgrade is ordered for.
pub struct SupplierRecord {
    pub id: u64,
    pub flag: u32,
    pub company_name: String,
}

/// The ordering pipeline of one worker: the settings, the receiving account
/// and the access token that signs its requests.
pub struct AppOrder {
    pub web: WebConfig,
    pub fk_id: u64,
    pub fk_flag: u32,
    pub user_name: String,
    pub access_token: String,
}

/// A supplier that could not be ordered for, and why.
#[derive(Debug)]
pub enum RecordFailure {
    /// The store gave a flag that is not a valid supplier flag.
    InvalidFlag(i32),
    /// The submission failed.
    Submit(ParseError),
}

/// What became of the orders of one page.
pub struct PageOutcome {
    /// Accepted submissions: supplier id, supplier flag, order id.
    pub submitted: Vec<(u64, u32, i64)>,
    /// Suppliers whose order was not accepted.
    pub failed: Vec<(u64, RecordFailure)>,
    /// Orders whose payment callback was acknowledged.
    pub paid: Vec<i64>,
    /// Orders whose payment callback failed.
    pub unpaid: Vec<(i64, ParseError)>,
}

/// The action name of an order submission.
pub open spec fn submit_action() -> Seq<char> {
    "aus.package.app.submit"@
}

/// The action name of a payment callback.
pub open spec fn callback_action() -> Seq<char> {
    "aus.package.order.callback"@
}

/// The fixed tail of the remark of every order.
pub open spec fn remark_tail() -> Seq<char> {
    "手动批量更新【操作人：任我行科技销售中心;IP=127.0.0.1】"@
}

/// The query that counts the eligible suppliers of an application version.
pub open spec fn count_query_spec(version_app: int) -> Seq<char> {
    "SELECT count(0) AS co FROM pak_customerapp AS a JOIN sup_supplier AS b WHERE a.fkid=b.id AND a.fkflag=2 AND b.expireTime>NOW() AND appid="@
        + signed_decimal_spec(version_app) + ";"@
}

/// The query that lists one page of the eligible suppliers.
pub open spec fn list_query_spec(version_app: int, offset: nat, page_size: nat) -> Seq<char> {
    "SELECT a.FKId,a.FKFlag,2 AS RunWay,b.Name AS CompanyName FROM pak_customerapp AS a JOIN sup_supplier AS b WHERE a.fkid=b.id AND a.fkflag=2 AND b.expireTime>NOW() AND appid="@
        + signed_decimal_spec(version_app) + " limit "@ + decimal_spec(offset) + ","@
        + decimal_spec(page_size) + ";"@
}

/// The id, flag and company name of each supplier record.
pub open spec fn records_view(v: Seq<SupplierRecord>) -> Seq<(u64, u32, Seq<char>)> {
    v.map_values(|r: SupplierRecord| (r.id, r.flag, r.company_name@))
}

/// The suppliers that the listing rows (id, flag, company name) give, in
/// order: every row whose flag is not negative.
pub open spec fn listed_suppliers(rows: Seq<(u64, i32, String)>) -> Seq<(u64, u32, Seq<char>)>
    decreases rows.len(),
{
    if rows.len() == 0 {
        Seq::empty()
    } else if rows.last().1 >= 0 {
        listed_suppliers(rows.drop_last()).push((rows.last().0, rows.last().1 as u32, rows.last().2@))
    } else {
        listed_suppliers(rows.drop_last())
    }
}

/// The listing rows whose flag is negative, as failures, in order.
pub open spec fn rejected_rows(rows: Seq<(u64, i32, String)>) -> Seq<(u64, RecordFailure)>
    decreases rows.len(),
{
    if rows.len() == 0 {
        Seq::empty()
    } else if rows.last().1 < 0 {
        rejected_rows(rows.drop_last()).push((rows.last().0, RecordFailure::InvalidFlag(rows.last().1)))
    } else {
        rejected_rows(rows.drop_last())
    }
}

/// The order fields for one supplier.
pub open spec fn send_fields_spec(
    receiver_id: u64,
    receiver_flag: u32,
    id: u64,
    flag: u32,
    company_name: Seq<char>,
    app_id: i32,
    app_name: Seq<char>,
    content: Seq<char>,
) -> Seq<(Seq<char>, Seq<char>)> {
    seq![
        ("Flag"@, "Upgrade_Plug_"@ + app_name),
        ("AppId"@, signed_decimal_spec(app_id as int)),
        ("AppliedId"@, "0"@),
        ("Content"@, content),
        ("ReceiveFKId"@, decimal_spec(receiver_id as nat)),
        ("ReceiveFKFlag"@, decimal_spec(receiver_flag as nat)),
        ("Remark"@, content + remark_tail()),
        ("RunWay"@, "Wholesale"@),
        ("FKId"@, decimal_spec(id as nat)),
        ("FKFlag"@, decimal_spec(flag as nat)),
        ("CompanyName"@, company_name),
    ]
}

/// Every supplier record yields an order whose "FKId" and "FKFlag" are the
/// supplier's id and flag in decimal, with no leading zeros.
pub proof fn order_names_its_supplier(
    receiver_id: u64,
    receiver_flag: u32,
    id: u64,
    flag: u32,
    company_name: Seq<char>,
    app_id: i32,
    app_name: Seq<char>,
    content: Seq<char>,
)
    ensures
        form_field(send_fields_spec(receiver_id, receiver_flag, id, flag, company_name, app_id, app_name, content), "FKId"@)
            == Some(decimal_spec(id as nat)),
        form_field(send_fields_spec(receiver_id, receiver_flag, id, flag, company_name, app_id, app_name, content), "FKFlag"@)
            == Some(decimal_spec(flag as nat)),
        decimal_spec(id as nat)[0] == '0' ==> id == 0,
        decimal_spec(flag as nat)[0] == '0' ==> flag == 0,
{
    reveal_strlit("Flag");
    reveal_strlit("AppId");
    reveal_strlit("AppliedId");
    reveal_strlit("Content");
    reveal_strlit("ReceiveFKId");
    reveal_strlit("ReceiveFKFlag");
    reveal_strlit("Remark");
    reveal_strlit("RunWay");
    reveal_strlit("FKId");
    reveal_strlit("FKFlag");
    let f = send_fields_spec(receiver_id, receiver_flag, id, flag, company_name, app_id, app_name, content);
    assert forall|j: int| 0 <= j < 8 implies f[j].0 != "FKId"@ by {
        if j == 0 {
            assert(f[j].0[1] != "FKId"@[1]);
        } else {
            assert(f[j].0.len() != "FKId"@.len());
        }
    }
    assert forall|j: int| 0 <= j < 9 implies f[j].0 != "FKFlag"@ by {
        if j == 6 || j == 7 {
            assert(f[j].0[0] != "FKFlag"@[0]);
        } else {
            assert(f[j].0.len() != "FKFlag"@.len());
        }
    }
    lemma_form_field_at(f, "FKId"@, 8);
    lemma_form_field_at(f, "FKFlag"@, 9);
    crate::decimal::decimal_has_no_leading_zero(id as nat);
    crate::decimal::decimal_has_no_leading_zero(flag as nat);
}

/// A reply that reports no success, such as the one that refuses a
/// duplicate order, is a failed submission carrying the service's message,
/// never an order.
pub proof fn refused_submission_fails(reply: Reply)
    requires
        !reply.success,
    ensures
        submit_outcome_spec(reply) == Err::<i64, ParseError>(ParseError::Rejected(reply.message)),
{
}

/// The JSON object text of a flat form, its fields in order.
pub uninterp spec fn json_object_text(fields: Seq<(Seq<char>, Seq<char>)>) -> Seq<char>;

/// Relies on json::stringify of a JSON object built from the fields in
/// order: the object's text, with each value a JSON string.
#[verifier::external_body]
fn stringify_fields(fields: &Form) -> (r: String)
    ensures
        r@ == json_object_text(form_view(fields@)),
{
    let object: json::object::Object = fields.iter().map(|(k, v)| (k.as_str(), v.as_str())).collect();
    json::stringify(json::JsonValue::Object(object))
}

fn text(s: &str) -> (r: String)
    ensures
        r@ == s@,
{
    String::from_str(s)
}

/// The service returned a JSON reply that reports no success.
pub open spec fn refuses(res: Result<String, String>) -> bool {
    res matches Ok(t) && json_accepts(t@) && !reply_success(t@)
}

/// The accepted submissions of a page, in order: the `i`-th supplier with
/// its order id, wherever the `i`-th outcome is an order.
pub open spec fn submitted_of(records: Seq<SupplierRecord>, os: Seq<Result<i64, ParseError>>) -> Seq<(u64, u32, i64)>
    decreases os.len(),
{
    if os.len() == 0 {
        Seq::empty()
    } else {
        let r = records[os.len() - 1];
        let prev = submitted_of(records, os.drop_last());
        match os.last() {
            Ok(order_id) => prev.push((r.id, r.flag, order_id)),
            Err(_) => prev,
        }
    }
}

/// The failed submissions of a page, in order: the `i`-th supplier's id with
/// the reason, wherever the `i`-th outcome is an error.
pub open spec fn failed_of(records: Seq<SupplierRecord>, os: Seq<Result<i64, ParseError>>) -> Seq<(u64, RecordFailure)>
    decreases os.len(),
{
    if os.len() == 0 {
        Seq::empty()
    } else {
        let r = records[os.len() - 1];
        let prev = failed_of(records, os.drop_last());
        match os.last() {
            Ok(_) => prev,
            Err(e) => prev.push((r.id, RecordFailure::Submit(e))),
        }
    }
}

/// `f` records that the service refused the order of supplier `id` with the
/// message of the reply `res`.
pub open spec fn refusal_recorded(f: (u64, RecordFailure), id: u64, res: Result<String, String>) -> bool {
    match (f, res) {
        ((fid, RecordFailure::Submit(ParseError::Rejected(m))), Ok(t)) => fid == id && m@ == reply_message(t@),
        _ => false,
    }
}

/// `after` is `before` with the outcome of one supplier's submission
/// recorded: an accepted order joins the submitted ones, anything else the
/// failures.
pub open spec fn submit_recorded(before: PageOutcome, after: PageOutcome, id: u64, flag: u32, outcome: Result<i64, ParseError>) -> bool {
    &&& after.paid@ == before.paid@
    &&& after.unpaid@ == before.unpaid@
    &&& match outcome {
        Ok(order_id) => after.submitted@ == before.submitted@.push((id, flag, order_id))
            && after.failed@ == before.failed@,
        Err(e) => after.failed@ == before.failed@.push((id, RecordFailure::Submit(e)))
            && after.submitted@ == before.submitted@,
    }
}

/// `after` is `before` with the outcome of one order's payment callback
/// recorded: paid where it was acknowledged, unpaid with the reason else.
pub open spec fn callback_recorded(before: PageOutcome, after: PageOutcome, order_id: i64, outcome: Result<(), ParseError>) -> bool {
    &&& after.submitted@ == before.submitted@
    &&& after.failed@ == before.failed@
    &&& match outcome {
        Ok(_) => after.paid@ == before.paid@.push(order_id) && after.unpaid@ == before.unpaid@,
        Err(e) => after.unpaid@ == before.unpaid@.push((order_id, e)) && after.paid@ == before.paid@,
    }
}

impl PageOutcome {
    /// The outcome of a page before any order: nothing submitted, failed or
    /// paid. It is also the outcome of a page whose suppliers could not be
    /// read.
    pub fn new() -> (r: PageOutcome)
        ensures
            r.submitted@.len() == 0,
            r.failed@.len() == 0,
            r.paid@.len() == 0,
            r.unpaid@.len() == 0,
    {
        PageOutcome { submitted: Vec::new(), failed: Vec::new(), paid: Vec::new(), unpaid: Vec::new() }
    }

    /// Records suppliers that could not be ordered for.
    pub fn record_failures(&mut self, failures: Vec<(u64, RecordFailure)>)
        ensures
            final(self).failed@ == old(self).failed@ + failures@,
            final(self).submitted@ == old(self).submitted@,
            final(self).paid@ == old(self).paid@,
            final(self).unpaid@ == old(self).unpaid@,
    {
        let mut more = failures;
        self.failed.append(&mut more);
    }

    /// Records the outcome of one supplier's submission: an accepted order
    /// joins the submitted ones, anything else the failures.
    pub fn record_submit_outcome(&mut self, id: u64, flag: u32, outcome: Result<i64, ParseError>)
        ensures
            submit_recorded(*old(self), *final(self), id, flag, outcome),
    {
        match outcome {
            Ok(order_id) => self.submitted.push((id, flag, order_id)),
            Err(e) => self.failed.push((id, RecordFailure::Submit(e))),
        }
    }

    /// Records what the transport returned for one supplier's submission: the
    /// outcome that the reply parses to (there is exactly one, up to the
    /// text of a refusal) is recorded.
    pub fn record_submission(&mut self, id: u64, flag: u32, res: &Result<String, String>)
        ensures
            exists|outcome: Result<i64, ParseError>| submit_result_matches(*res, outcome)
                && #[trigger] submit_recorded(*old(self), *final(self), id, flag, outcome),
    {
        let outcome = parse_submit_content(res);
        self.record_submit_outcome(id, flag, outcome);
    }

    /// Records the submissions of a page: for the `i`-th supplier, what the
    /// transport returned for its order. Each supplier's outcome is what its
    /// response parses to: an order joins the submitted ones with the
    /// supplier's id and flag, anything else (a transport error included) the
    /// failures under the supplier's id, both in page order. No callback is
    /// recorded. Where the
    /// service refuses every order (as it does duplicates), nothing is
    /// submitted and every supplier fails with the service's message.
    pub fn record_submissions(&mut self, records: &Vec<SupplierRecord>, responses: &Vec<Result<String, String>>)
        requires
            records@.len() == responses@.len(),
        ensures
            final(self).submitted@.len() + final(self).failed@.len()
                == old(self).submitted@.len() + old(self).failed@.len() + records@.len(),
            final(self).submitted@.subrange(0, old(self).submitted@.len() as int) == old(self).submitted@,
            final(self).failed@.subrange(0, old(self).failed@.len() as int) == old(self).failed@,
            final(self).paid@ == old(self).paid@,
            final(self).unpaid@ == old(self).unpaid@,
            exists|os: Seq<Result<i64, ParseError>>| {
                &&& os.len() == records@.len()
                &&& forall|i: int| 0 <= i < os.len() ==> submit_result_matches(responses@[i], #[trigger] os[i])
                &&& final(self).submitted@ == old(self).submitted@ + submitted_of(records@, os)
                &&& final(self).failed@ == old(self).failed@ + failed_of(records@, os)
            },
            (forall|i: int| 0 <= i < responses@.len() ==> refuses(#[trigger] responses@[i])) ==> {
                &&& final(self).submitted@ == old(self).submitted@
                &&& final(self).failed@.len() == old(self).failed@.len() + records@.len()
                &&& forall|i: int| 0 <= i < records@.len() ==> refusal_recorded(#[trigger] final(self).failed@[old(self).failed@.len() + i], records@[i].id, responses@[i])
            },
    {
        let ghost start = *self;
        let ghost mut os: Seq<Result<i64, ParseError>> = Seq::empty();
        let mut i: usize = 0;
        while i < records.len()
            invariant
                i <= records@.len(),
                records@.len() == responses@.len(),
                os.len() == i,
                forall|j: int| 0 <= j < os.len() ==> submit_result_matches(responses@[j], #[trigger] os[j]),
                self.submitted@ == start.submitted@ + submitted_of(records@, os),
                self.failed@ == start.failed@ + failed_of(records@, os),
                self.submitted@.len() + self.failed@.len() == start.submitted@.len() + start.failed@.len() + i,
                self.submitted@.subrange(0, start.submitted@.len() as int) == start.submitted@,
                self.failed@.subrange(0, start.failed@.len() as int) == start.failed@,
                self.submitted@.len() >= start.submitted@.len(),
                self.failed@.len() >= start.failed@.len(),
                self.paid@ == start.paid@,
                self.unpaid@ == start.unpaid@,
                (forall|j: int| 0 <= j < responses@.len() ==> refuses(#[trigger] responses@[j])) ==> {
                    &&& self.submitted@ == start.submitted@
                    &&& self.failed@.len() == start.failed@.len() + i
                    &&& forall|j: int| 0 <= j < i ==> refusal_recorded(#[trigger] self.failed@[start.failed@.len() + j], records@[j].id, responses@[j])
                },
            decreases records@.len() - i,
        {
            let ghost before = *self;
            self.record_submission(records[i].id, records[i].flag, &responses[i]);
            proof {
                let o = choose|o: Result<i64, ParseError>| submit_result_matches(responses@[i as int], o)
                    && #[trigger] submit_recorded(before, *self, records@[i as int].id, records@[i as int].flag, o);
                assert(self.submitted@.subrange(0, start.submitted@.len() as int) =~= start.submitted@) by {
                    assert(before.submitted@.subrange(0, start.submitted@.len() as int) =~= start.submitted@);
                }
                assert(self.failed@.subrange(0, start.failed@.len() as int) =~= start.failed@) by {
                    assert(before.failed@.subrange(0, start.failed@.len() as int) =~= start.failed@);
                }
                if forall|j: int| 0 <= j < responses@.len() ==> refuses(#[trigger] responses@[j]) {
                    assert(refuses(responses@[i as int]));
                }
                let os2 = os.push(o);
                assert(os2.drop_last() =~= os);
                assert(os2.last() == o);
                match o {
                    Ok(_) => {
                        assert(self.submitted@ =~= start.submitted@ + submitted_of(records@, os2));
                        assert(self.failed@ =~= start.failed@ + failed_of(records@, os2));
                    },
                    Err(_) => {
                        assert(self.submitted@ =~= start.submitted@ + submitted_of(records@, os2));
                        assert(self.failed@ =~= start.failed@ + failed_of(records@, os2));
                    },
                }
                os = os2;
            }
            i = i + 1;
        }
    }

    /// The order ids of the accepted submissions, in order: the orders whose
    /// payment callbacks are due.
    pub fn accepted_orders(&self) -> (r: Vec<i64>)
        ensures
            r@.len() == self.submitted@.len(),
            forall|i: int| 0 <= i < r@.len() ==> #[trigger] r@[i] == self.submitted@[i].2,
    {
        let mut ids: Vec<i64> = Vec::new();
        let mut i: usize = 0;
        while i < self.submitted.len()
            invariant
                i <= self.submitted@.len(),
                ids@.len() == i,
                forall|k: int| 0 <= k < i ==> #[trigger] ids@[k] == self.submitted@[k].2,
            decreases self.submitted@.len() - i,
        {
            ids.push(self.submitted[i].2);
            i = i + 1;
        }
        ids
    }

    /// Records the outcome of one order's payment callback.
    pub fn record_callback_outcome(&mut self, order_id: i64, outcome: Result<(), ParseError>)
        ensures
            callback_recorded(*old(self), *final(self), order_id, outcome),
    {
        match outcome {
            Ok(()) => self.paid.push(order_id),
            Err(e) => self.unpaid.push((order_id, e)),
        }
    }

    /// Records what the transport returned for one order's payment callback:
    /// the outcome that the reply parses to is recorded.
    pub fn record_callback(&mut self, order_id: i64, res: &Result<String, String>)
        ensures
            exists|outcome: Result<(), ParseError>| callback_result_matches(*res, outcome)
                && #[trigger] callback_recorded(*old(self), *final(self), order_id, outcome),
    {
        let outcome = parse_callback_content(res);
        self.record_callback_outcome(order_id, outcome);
    }
}

impl AppOrder {
    /// The fields of the signed submission form of an order with the given
    /// fields: the fields, their JSON text under "Data", and the protocol
    /// fields of the submit action.
    pub open spec fn submission_form_spec(&self, fields: Seq<(Seq<char>, Seq<char>)>) -> Seq<(Seq<char>, Seq<char>)> {
        fields + seq![("Data"@, json_object_text(fields))]
            + protocol_fields(self.web.sn@, submit_action(), encode_utf8(self.access_token@))
    }

    /// The pipeline of the receiving account `fk_id`/`fk_flag`, signed with
    /// the access token issued to it.
    pub fn new(web: &WebConfig, fk_id: u64, fk_flag: u32, user_name: &str, access_token: String) -> (r: Self)
        ensures
            r.web == *web,
            r.fk_id == fk_id,
            r.fk_flag == fk_flag,
            r.user_name@ == user_name@,
            r.access_token == access_token,
    {
        AppOrder {
            web: web.copy(),
            fk_id,
            fk_flag,
            user_name: text(user_name),
            access_token,
        }
    }

    /// The query that counts the eligible suppliers of `version_app`.
    pub fn version_count_query(&self, version_app: i32) -> (r: String)
        ensures
            r@ == count_query_spec(version_app as int),
    {
        let head = text("SELECT count(0) AS co FROM pak_customerapp AS a JOIN sup_supplier AS b WHERE a.fkid=b.id AND a.fkflag=2 AND b.expireTime>NOW() AND appid=");
        let version = i64_text(version_app as i64);
        head.concat(version.as_str()).concat(";")
    }

    /// The count that the counting query's rows give: the first row's, or
    /// zero where there is none.
    pub fn get_version_count(&self, counts: &Vec<u64>) -> (r: u64)
        ensures
            counts@.len() > 0 ==> r == counts@[0],
            counts@.len() == 0 ==> r == 0,
    {
        if counts.len() > 0 {
            counts[0]
        } else {
            0
        }
    }

    /// The query that lists page `page_index` of the eligible suppliers of
    /// `version_app`, or `None` where the page's offset does not fit in 64
    /// bits.
    pub fn list_version_query(&self, version_app: i32, page_size: u64, page_index: u64) -> (r: Option<String>)
        ensures
            r is None <==> page_size * page_index > u64::MAX,
            r matches Some(q) ==> q@ == list_query_spec(version_app as int, (page_size * page_index) as nat, page_size as nat),
    {
        match page_offset(page_size, page_index) {
            None => None,
            Some(offset) => {
                let head = text("SELECT a.FKId,a.FKFlag,2 AS RunWay,b.Name AS CompanyName FROM pak_customerapp AS a JOIN sup_supplier AS b WHERE a.fkid=b.id AND a.fkflag=2 AND b.expireTime>NOW() AND appid=");
                let version = i64_text(version_app as i64);
                let from = u64_text(offset);
                let size = u64_text(page_size);
                Some(head.concat(version.as_str()).concat(" limit ").concat(from.as_str()).concat(",").concat(size.as_str()).concat(";"))
            },
        }
    }

    /// The suppliers of a page from the listing query's rows (id, flag,
    /// company name), in order; a row whose flag is negative is not ordered
    /// for and is reported as a failure, the others go on.
    pub fn get_list_version(&self, rows: &Vec<(u64, i32, String)>) -> (r: (Vec<SupplierRecord>, Vec<(u64, RecordFailure)>))
        ensures
            records_view(r.0@) == listed_suppliers(rows@),
            r.1@ == rejected_rows(rows@),
    {
        let mut records: Vec<SupplierRecord> = Vec::new();
        let mut failures: Vec<(u64, RecordFailure)> = Vec::new();
        let mut i: usize = 0;
        while i < rows.len()
            invariant
                i <= rows@.len(),
                records_view(records@) == listed_suppliers(rows@.subrange(0, i as int)),
                failures@ == rejected_rows(rows@.subrange(0, i as int)),
            decreases rows@.len() - i,
        {
            let id = rows[i].0;
            let flag = rows[i].1;
            let ghost seen = rows@.subrange(0, i + 1);
            assert(seen.drop_last() =~= rows@.subrange(0, i as int));
            if flag < 0 {
                failures.push((id, RecordFailure::InvalidFlag(flag)));
            } else {
                records.push(SupplierRecord { id, flag: flag as u32, company_name: rows[i].2.clone() });
            }
            assert(records_view(records@) =~= listed_suppliers(seen));
            i = i + 1;
        }
        assert(rows@.subrange(0, rows@.len() as int) =~= rows@);
        (records, failures)
    }

    /// The order fields for one supplier: the upgrade flag, the application,
    /// the receiving account, the remark, the channel and the supplier.
    pub fn get_send_data(&self, item: &SupplierRecord, app_id: i32, app_name: &str, content: &str) -> (r: Form)
        ensures
            form_view(r@) == send_fields_spec(self.fk_id, self.fk_flag, item.id, item.flag, item.company_name@, app_id, app_name@, content@),
    {
        let r: Form = vec![
            (text("Flag"), text("Upgrade_Plug_").concat(app_name)),
            (text("AppId"), i64_text(app_id as i64)),
            (text("AppliedId"), text("0")),
            (text("Content"), text(content)),
            (text("ReceiveFKId"), u64_text(self.fk_id)),
            (text("ReceiveFKFlag"), u64_text(self.fk_flag as u64)),
            (text("Remark"), text(content).concat("手动批量更新【操作人：任我行科技销售中心;IP=127.0.0.1】")),
            (text("RunWay"), text("Wholesale")),
            (text("FKId"), u64_text(item.id)),
            (text("FKFlag"), u64_text(item.flag as u64)),
            (text("CompanyName"), item.company_name.clone()),
        ];
        assert(form_view(r@) =~= send_fields_spec(self.fk_id, self.fk_flag, item.id, item.flag, item.company_name@, app_id, app_name@, content@));
        r
    }

    /// The order fields for each supplier of a page, in order.
    pub fn decorate_list(&self, records: &Vec<SupplierRecord>, app_id: i32, app_name: &str, content: &str) -> (r: Vec<Form>)
        ensures
            r@.len() == records@.len(),
            forall|i: int| 0 <= i < r@.len() ==> form_view(#[trigger] r@[i]@) == send_fields_spec(
                self.fk_id, self.fk_flag, records@[i].id, records@[i].flag, records@[i].company_name@, app_id, app_name@, content@),
    {
        let mut list: Vec<Form> = Vec::new();
        let mut i: usize = 0;
        while i < records.len()
            invariant
                i <= records@.len(),
                list@.len() == i,
                forall|k: int| 0 <= k < i ==> form_view(#[trigger] list@[k]@) == send_fields_spec(
                    self.fk_id, self.fk_flag, records@[k].id, records@[k].flag, records@[k].company_name@, app_id, app_name@, content@),
            decreases records@.len() - i,
        {
            let data = self.get_send_data(&records[i], app_id, app_name, content);
            list.push(data);
            i = i + 1;
        }
        list
    }

    /// The start of a page's work from what the listing query returned: the
    /// suppliers to order for, the signed submission form of each, in order,
    /// and the outcome so far, which holds the rows that failed. Where the
    /// store failed, the page has no supplier and no request, and its outcome
    /// is empty; nothing of another page is read or changed.
    pub fn start_page(&self, rows: &Result<Vec<(u64, i32, String)>, String>, app_id: i32, app_name: &str, content: &str)
        -> (r: (Vec<SupplierRecord>, Vec<Form>, PageOutcome))
        ensures
            r.1@.len() == r.0@.len(),
            r.2.submitted@.len() == 0,
            r.2.paid@.len() == 0,
            r.2.unpaid@.len() == 0,
            rows is Err ==> r.0@.len() == 0 && r.2.failed@.len() == 0,
            rows matches Ok(rs) ==> records_view(r.0@) == listed_suppliers(rs@) && r.2.failed@ == rejected_rows(rs@),
            forall|i: int| 0 <= i < r.1@.len() ==> form_view(#[trigger] r.1@[i]@) == (self.submission_form_spec(
                send_fields_spec(self.fk_id, self.fk_flag, r.0@[i].id, r.0@[i].flag, r.0@[i].company_name@, app_id, app_name@, content@))),
    {
        let mut outcome = PageOutcome::new();
        match rows {
            Err(_) => (Vec::new(), Vec::new(), outcome),
            Ok(rs) => {
                let (records, failures) = self.get_list_version(rs);
                outcome.record_failures(failures);
                let payloads = self.decorate_list(&records, app_id, app_name, content);
                let mut forms: Vec<Form> = Vec::new();
                let mut i: usize = 0;
                while i < payloads.len()
                    invariant
                        i <= payloads@.len(),
                        payloads@.len() == records@.len(),
                        forms@.len() == i,
                        forall|k: int| 0 <= k < payloads@.len() ==> form_view(#[trigger] payloads@[k]@) == send_fields_spec(
                            self.fk_id, self.fk_flag, records@[k].id, records@[k].flag, records@[k].company_name@, app_id, app_name@, content@),
                        forall|k: int| 0 <= k < i ==> form_view(#[trigger] forms@[k]@) == (self.submission_form_spec(
                            send_fields_spec(self.fk_id, self.fk_flag, records@[k].id, records@[k].flag, records@[k].company_name@, app_id, app_name@, content@))),
                    decreases payloads@.len() - i,
                {
                    let form = self.submission_form(&payloads[i]);
                    forms.push(form);
                    i = i + 1;
                }
                (records, forms, outcome)
            },
        }
    }

    /// The signed form of an order submission: the order's fields, their JSON
    /// text under "Data", and the protocol fields of the submit action.
    pub fn submission_form(&self, payload: &Form) -> (r: Form)
        ensures
            form_view(r@) == (self.submission_form_spec(form_view(payload@))),
    {
        let data = stringify_fields(payload);
        let mut fields: Form = Vec::new();
        let mut i: usize = 0;
        while i < payload.len()
            invariant
                i <= payload@.len(),
                fields@ == payload@.subrange(0, i as int),
            decreases payload@.len() - i,
        {
            fields.push((payload[i].0.clone(), payload[i].1.clone()));
            assert(fields@ =~= payload@.subrange(0, i + 1));
            i = i + 1;
        }
        assert(payload@.subrange(0, payload@.len() as int) =~= payload@);
        let ghost before = fields@;
        fields.push((text("Data"), data));
        assert(form_view(fields@) =~= form_view(before) + seq![("Data"@, json_object_text(form_view(payload@)))]);
        signed_form(&fields, self.web.sn.as_str(), "aus.package.app.submit", self.access_token.as_str())
    }

    /// The signed form of the payment callback of an order: its id and the
    /// paid status, then the protocol fields of the callback action.
    pub fn callback_form(&self, order_id: i64) -> (r: Form)
        ensures
            form_view(r@) == seq![("OrderIds"@, signed_decimal_spec(order_id as int)), ("PayStatus"@, "true"@)]
                + protocol_fields(self.web.sn@, callback_action(), encode_utf8(self.access_token@)),
    {
        let fields: Form = vec![
            (text("OrderIds"), i64_text(order_id)),
            (text("PayStatus"), text("true")),
        ];
        assert(form_view(fields@) =~= seq![("OrderIds"@, signed_decimal_spec(order_id as int)), ("PayStatus"@, "true"@)]);
        signed_form(&fields, self.web.sn.as_str(), "aus.package.order.callback", self.access_token.as_str())
    }
}

} // verus!
