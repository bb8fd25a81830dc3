use stripe::client::Client;
use stripe::error::RequestError;
use stripe::form::{to_params, FormFields, Params};
use stripe::params::{Decimal, List, Metadata, RangeBounds, RangeQuery};
use stripe::request::Method;
use stripe::resources::address::Address;
use stripe::resources::card::CardParams;
use stripe::resources::charge;
use stripe::resources::charge::{
    CaptureParams, ChargeListParams, ChargeParams, DestinationParams, FraudDetails,
    FraudDetailsReport, ShippingDetails, SourceFilter, SourceType,
};
use stripe::resources::currency::Currency;
use stripe::resources::customer::{
    Customer, CustomerListParams, CustomerParams, CustomerShippingDetails, CustomerSourceParam,
};
use stripe::resources::invoices::{
    InvoiceLineItemParams, InvoiceListParams, InvoiceParams, InvoiceUpcomingParams,
    SubscriptionItemParams,
};
use stripe::resources::plan::PlanParams;
use stripe::transport::{RawResponse, ResolvedRequest};

fn pair(key: &str, value: &str) -> (String, String) {
    (key.to_string(), value.to_string())
}

fn pairs(items: &[(&str, &str)]) -> Vec<(String, String)> {
    items.iter().map(|(k, v)| pair(k, v)).collect()
}

fn client() -> Client {
    Client::new("sk_test_123").unwrap()
}

fn jdoe<'a>() -> CustomerParams<'a> {
    let mut params = CustomerParams::default();
    params.email = Some("jdoe@example.org");
    params.source = Some(CustomerSourceParam::Card(CardParams {
        object: "card",
        number: "4242424242424242",
        exp_month: "02",
        exp_year: "21",
        name: None,
        cvc: None,
    }));
    params
}

fn optional_text(value: &serde_json::Value, member: &str) -> Option<String> {
    value.get(member).and_then(|v| v.as_str()).map(|s| s.to_string())
}

fn decode_customer(body: Vec<u8>) -> Result<Customer, String> {
    let value: serde_json::Value = serde_json::from_slice(&body).map_err(|e| e.to_string())?;
    let id = optional_text(&value, "id").ok_or("missing field `id`".to_string())?;
    Ok(Customer {
        id,
        account_balance: value.get("account_balance").and_then(|v| v.as_i64()).unwrap_or(0),
        business_vat_id: optional_text(&value, "business_vat_id"),
        created: value.get("created").and_then(|v| v.as_u64()).unwrap_or(0),
        currency: None,
        default_source: optional_text(&value, "default_source"),
        delinquent: value.get("delinquent").and_then(|v| v.as_bool()).unwrap_or(false),
        desc: optional_text(&value, "desc"),
        discount: None,
        email: optional_text(&value, "email"),
        livemode: value.get("livemode").and_then(|v| v.as_bool()).unwrap_or(false),
        metadata: Metadata::default(),
        shipping: None,
        sources: List { data: Vec::new(), has_more: false, total_count: None, url: String::new() },
        subscriptions: List {
            data: Vec::new(),
            has_more: false,
            total_count: None,
            url: String::new(),
        },
    })
}

fn no_envelope(_: Vec<u8>) -> Result<RequestError, String> {
    panic!("the envelope decoder ran")
}

#[test]
pub fn test_create_customer() {
    Customer::create(CustomerParams {
        account_balance: None,
        business_vat_id: None,
        coupon: None,
        default_source_id: None,
        description: None,
        email: None,
        metadata: None,
        shipping: None,
        source: None,
    });
}

#[test]
fn creating_a_customer_without_parameters_posts_an_empty_body() {
    let request = Customer::create(CustomerParams::default());
    assert_eq!(request.method(), Method::Post);
    assert_eq!(request.path(), "/customers");
    assert_eq!(request.body_params().map(|p| p.len()), Some(0));
    assert!(request.query_params().is_none());
    assert_eq!(client().resolve(&request).encoded_body, Some(Vec::new()));
}

#[test]
fn creating_a_customer_with_a_card() {
    let request = Customer::create(jdoe());
    assert_eq!(request.method(), Method::Post);
    assert_eq!(request.path(), "/customers");
    assert_eq!(
        request.body_params().unwrap().entries,
        pairs(&[
            ("email", "jdoe@example.org"),
            ("source[object]", "card"),
            ("source[number]", "4242424242424242"),
            ("source[exp_month]", "02"),
            ("source[exp_year]", "21"),
        ])
    );

    let resolved = client().resolve(&request);
    assert_eq!(resolved.method, Method::Post);
    assert_eq!(resolved.full_url, "https://api.stripe.com/v1/customers");
    let body = String::from_utf8(resolved.encoded_body.clone().unwrap()).unwrap();
    assert_eq!(
        body,
        "email=jdoe%40example.org&source%5Bobject%5D=card&source%5Bnumber%5D=4242424242424242&source%5Bexp_month%5D=02&source%5Bexp_year%5D=21"
    );
    let unescaped = body.replace("%5B", "[").replace("%5D", "]");
    assert!(unescaped.contains(
        "email=jdoe%40example.org&source[object]=card&source[number]=4242424242424242&source[exp_month]=02&source[exp_year]=21"
    ));
    let decoded: Vec<(String, String)> = serde_urlencoded::from_str(&body).unwrap();
    assert_eq!(decoded, request.body_params().unwrap().entries);

    let reply = r#"{"id":"cus_A1","email":"jdoe@example.org","default_source":null,"created":1690000000}"#;
    let send = |sent: ResolvedRequest| -> Result<RawResponse, String> {
        assert_eq!(sent, resolved);
        Ok(RawResponse { status: 200, body: reply.as_bytes().to_vec() })
    };
    let customer = client().execute(&request, send, decode_customer, no_envelope).unwrap();
    assert_eq!(customer.id, "cus_A1");
    assert_eq!(customer.email, Some("jdoe@example.org".to_string()));
    assert_eq!(customer.created, 1690000000);
    assert_eq!(customer.default_source, None);
    assert_eq!(customer.business_vat_id, None);
    assert_eq!(customer.desc, None);
    assert_eq!(customer.currency, None);
    assert!(customer.discount.is_none());
    assert!(customer.shipping.is_none());
    assert_eq!(customer.account_balance, 0);
    assert!(customer.metadata.entries.is_empty());
    assert!(customer.sources.data.is_empty());
    assert!(customer.subscriptions.data.is_empty());
}

#[test]
fn the_same_parameters_give_the_same_bytes() {
    let client = client().with_stripe_account_id("acct_A");
    let first = client.resolve(&Customer::create(jdoe()));
    let second = client.resolve(&Customer::create(jdoe()));
    assert_eq!(first.full_url, second.full_url);
    assert_eq!(first.headers, second.headers);
    assert_eq!(first.encoded_body, second.encoded_body);
    assert_eq!(first, second);
}

#[test]
fn customer_parameters_in_declaration_order() {
    let params = CustomerParams {
        account_balance: Some(-500),
        business_vat_id: Some("DE123"),
        coupon: Some("SPRING"),
        default_source_id: Some("card_1"),
        description: Some("a customer"),
        email: Some("jdoe@example.org"),
        metadata: Some(Metadata { entries: vec![pair("tier", "gold")] }),
        shipping: Some(CustomerShippingDetails {
            address: Address {
                line1: Some("1 Main St".to_string()),
                line2: None,
                city: Some("Springfield".to_string()),
                state: None,
                postal_code: Some("12345".to_string()),
                country: Some("US".to_string()),
            },
            name: "J Doe".to_string(),
            phone: "555".to_string(),
        }),
        source: Some(CustomerSourceParam::Token("tok_visa")),
    };
    assert_eq!(
        to_params(&params).entries,
        pairs(&[
            ("account_balance", "-500"),
            ("business_vat_id", "DE123"),
            ("coupon", "SPRING"),
            ("default_source", "card_1"),
            ("description", "a customer"),
            ("email", "jdoe@example.org"),
            ("metadata[tier]", "gold"),
            ("shipping[address][line1]", "1 Main St"),
            ("shipping[address][city]", "Springfield"),
            ("shipping[address][postal_code]", "12345"),
            ("shipping[address][country]", "US"),
            ("shipping[name]", "J Doe"),
            ("shipping[phone]", "555"),
            ("source", "tok_visa"),
        ])
    );
}

#[test]
fn an_empty_value_is_sent_and_an_absent_one_is_not() {
    let mut clear = CustomerParams::default();
    clear.default_source_id = Some("");
    assert_eq!(to_params(&clear).entries, pairs(&[("default_source", "")]));
    assert_eq!(client().resolve(&Customer::update("cus_1", clear)).encoded_body, Some(b"default_source=".to_vec()));

    let keep = CustomerParams::default();
    assert_eq!(to_params(&keep).entries, Vec::new());
}

#[test]
fn a_default_card_names_its_kind_only() {
    let card = CardParams::default();
    assert_eq!(card.object, "card");
    assert_eq!(card.number, "");
    assert_eq!(card.exp_month, "");
    assert_eq!(card.exp_year, "");
    assert_eq!(card.name, None);
    assert_eq!(card.cvc, None);
}

#[test]
fn a_card_with_every_detail() {
    let card = CardParams {
        object: "card",
        number: "4242424242424242",
        exp_month: "12",
        exp_year: "30",
        name: Some("J Doe"),
        cvc: Some("123"),
    };
    let mut params = Params::new();
    card.append_to(&mut params, "card");
    assert_eq!(
        params.entries,
        pairs(&[
            ("card[object]", "card"),
            ("card[number]", "4242424242424242"),
            ("card[exp_month]", "12"),
            ("card[exp_year]", "30"),
            ("card[name]", "J Doe"),
            ("card[cvc]", "123"),
        ])
    );
}

#[test]
fn customer_operations_have_their_paths() {
    let retrieve = Customer::retrieve("cus_1");
    assert_eq!((retrieve.method(), retrieve.path()), (Method::Get, "/customers/cus_1"));
    assert_eq!(retrieve.query_params().map(|p| p.len()), Some(0));

    let mut params = CustomerParams::default();
    params.description = Some("new");
    let update = Customer::update("cus_1", params);
    assert_eq!((update.method(), update.path()), (Method::Post, "/customers/cus_1"));
    assert_eq!(update.body_params().unwrap().entries, pairs(&[("description", "new")]));

    let delete = Customer::delete("cus_1");
    assert_eq!((delete.method(), delete.path()), (Method::Delete, "/customers/cus_1"));
    assert!(delete.body_params().is_none());

    let detach = Customer::detach_source("cus_1", "card_9");
    assert_eq!(
        (detach.method(), detach.path()),
        (Method::Delete, "/customers/cus_1/sources/card_9")
    );

    let attach = Customer::attach_source("cus_1", CustomerSourceParam::Id("src_7"));
    assert_eq!((attach.method(), attach.path()), (Method::Post, "/customers/cus_1/sources"));
    assert_eq!(attach.body_params().unwrap().entries, pairs(&[("source", "src_7")]));
}

#[test]
fn listing_customers_puts_the_filter_in_the_query() {
    let params = CustomerListParams {
        created: Some(RangeQuery::Bounds(RangeBounds {
            gt: None,
            gte: Some(1690000000),
            lt: Some(1700000000),
            lte: None,
        })),
        ending_before: None,
        limit: Some(10),
        starting_after: Some("cus_5"),
    };
    let request = Customer::list(params);
    assert_eq!((request.method(), request.path()), (Method::Get, "/customers"));
    assert!(request.body_params().is_none());
    assert_eq!(
        request.query_params().unwrap().entries,
        pairs(&[
            ("created[gte]", "1690000000"),
            ("created[lt]", "1700000000"),
            ("limit", "10"),
            ("starting_after", "cus_5"),
        ])
    );
    let resolved = client().resolve(&request);
    assert_eq!(resolved.encoded_body, None);
    assert_eq!(
        resolved.full_url,
        "https://api.stripe.com/v1/customers?created%5Bgte%5D=1690000000&created%5Blt%5D=1700000000&limit=10&starting_after=cus_5"
    );
}

#[test]
fn charge_operations_have_their_paths() {
    let mut params = ChargeParams::default();
    params.amount = Some(2000);
    params.currency = Some(Currency::USD);
    params.capture = Some(false);
    params.customer = Some("cus_1".to_string());
    let create = charge::create(params);
    assert_eq!((create.method(), create.path()), (Method::Post, "/charges"));
    assert_eq!(
        create.body_params().unwrap().entries,
        pairs(&[("amount", "2000"), ("currency", "usd"), ("capture", "false"), ("customer", "cus_1")])
    );

    let retrieve = charge::retrieve("ch_1");
    assert_eq!((retrieve.method(), retrieve.path()), (Method::Get, "/charges/ch_1"));

    let mut params = ChargeParams::default();
    params.description = Some("shoes");
    let update = charge::update("ch_1", params);
    assert_eq!((update.method(), update.path()), (Method::Post, "/charges/ch_1"));
    assert_eq!(update.body_params().unwrap().entries, pairs(&[("description", "shoes")]));

    let capture = charge::capture(
        "ch_1",
        CaptureParams {
            amount: Some(1500),
            application_fee: None,
            receipt_email: Some("jdoe@example.org"),
            statement_descriptor: None,
        },
    );
    assert_eq!((capture.method(), capture.path()), (Method::Post, "/charges/ch_1/capture"));
    assert_eq!(
        capture.body_params().unwrap().entries,
        pairs(&[("amount", "1500"), ("receipt_email", "jdoe@example.org")])
    );
}

#[test]
fn listing_charges_is_a_get_with_a_query() {
    let mut params = ChargeListParams::default();
    params.customer = Some("cus_1");
    params.source = Some(SourceFilter::card());
    params.limit = Some(5);
    let list = charge::list(params);
    assert_eq!((list.method(), list.path()), (Method::Get, "/charges"));
    assert!(list.body_params().is_none());
    assert_eq!(
        list.query_params().unwrap().entries,
        pairs(&[("customer", "cus_1"), ("limit", "5"), ("source[object]", "card")])
    );
    assert_eq!(client().resolve(&list).encoded_body, None);
}

#[test]
fn charge_parameters_in_declaration_order() {
    let params = ChargeParams {
        amount: Some(999),
        currency: Some(Currency::EUR),
        application_fee: Some(10),
        capture: Some(true),
        description: Some("d"),
        destination: Some(DestinationParams { account: "acct_9", amount: 900 }),
        fraud_details: Some(FraudDetails {
            user_report: Some(FraudDetailsReport::Safe),
            stripe_report: Some(FraudDetailsReport::Fraudulent),
        }),
        transfer_group: Some("g"),
        on_behalf_of: Some("acct_3"),
        metadata: Some(Metadata { entries: vec![pair("k", "v")] }),
        receipt_email: Some("r@example.org"),
        shipping: Some(ShippingDetails {
            name: "J".to_string(),
            address: Address { line1: Some("L1".to_string()), ..Address::default() },
            carrier: Some("ups".to_string()),
            phone: None,
            tracking_number: Some("1Z".to_string()),
        }),
        customer: Some("cus_1".to_string()),
        source: Some(CustomerSourceParam::Id("card_1")),
        statement_descriptor: Some("SHOP"),
    };
    assert_eq!(
        to_params(&params).entries,
        pairs(&[
            ("amount", "999"),
            ("currency", "eur"),
            ("application_fee", "10"),
            ("capture", "true"),
            ("description", "d"),
            ("destination[account]", "acct_9"),
            ("destination[amount]", "900"),
            ("fraud_details[user_report]", "safe"),
            ("fraud_details[stripe_report]", "fraudulent"),
            ("transfer_group", "g"),
            ("on_behalf_of", "acct_3"),
            ("metadata[k]", "v"),
            ("receipt_email", "r@example.org"),
            ("shipping[name]", "J"),
            ("shipping[address][line1]", "L1"),
            ("shipping[carrier]", "ups"),
            ("shipping[tracking_number]", "1Z"),
            ("customer", "cus_1"),
            ("source", "card_1"),
            ("statement_descriptor", "SHOP"),
        ])
    );
}

#[test]
fn source_filters_name_their_kind() {
    assert_eq!(SourceFilter::all().object, SourceType::All);
    assert_eq!(SourceFilter::alipay().object, SourceType::AlipayAccount);
    assert_eq!(SourceFilter::bank().object, SourceType::BankAccount);
    assert_eq!(SourceFilter::bitcoin().object, SourceType::BitcoinReceiver);
    assert_eq!(SourceFilter::card().object, SourceType::Card);
    assert_eq!(SourceType::All.as_str(), "all");
    assert_eq!(SourceType::AlipayAccount.as_str(), "alipay_account");
    assert_eq!(SourceType::BankAccount.as_str(), "bank_account");
    assert_eq!(SourceType::BitcoinReceiver.as_str(), "bitcoin_receiver");
    assert_eq!(SourceType::Card.as_str(), "card");
    let mut params = Params::new();
    SourceFilter::bank().append_to(&mut params, "source");
    assert_eq!(params.entries, pairs(&[("source[object]", "bank_account")]));
}

#[test]
fn currencies_are_written_in_lower_case() {
    assert_eq!(Currency::USD.as_str(), "usd");
    assert_eq!(Currency::EUR.as_str(), "eur");
    assert_eq!(Currency::JPY.as_str(), "jpy");
    assert_eq!(Currency::AED.as_str(), "aed");
    assert_eq!(Currency::ZMW.as_str(), "zmw");
}

#[test]
fn plan_parameters_in_declaration_order() {
    let params = PlanParams {
        id: Some("gold"),
        amount: Some(5000),
        currency: Some(Currency::GBP),
        interval: Some("month"),
        name: Some("Gold"),
        interval_count: Some(3),
        metadata: None,
        statement_descriptor: Some("GOLD"),
        trial_period_days: Some(14),
    };
    assert_eq!(
        to_params(&params).entries,
        pairs(&[
            ("id", "gold"),
            ("amount", "5000"),
            ("currency", "gbp"),
            ("interval", "month"),
            ("name", "Gold"),
            ("interval_count", "3"),
            ("statement_descriptor", "GOLD"),
            ("trial_period_days", "14"),
        ])
    );
    assert_eq!(to_params(&PlanParams::default()).entries, Vec::new());
}

#[test]
fn invoice_parameters_in_declaration_order() {
    let params = InvoiceParams {
        application_fee: Some(5),
        customer: Some("cus_1"),
        description: None,
        statement_descriptor: None,
        subscription: Some("sub_1"),
        tax_percent: Some(Decimal { numeral: "8.5".to_string() }),
        closed: Some(true),
        forgiven: Some(false),
    };
    assert_eq!(
        to_params(&params).entries,
        pairs(&[
            ("application_fee", "5"),
            ("customer", "cus_1"),
            ("subscription", "sub_1"),
            ("tax_percent", "8.5"),
            ("closed", "true"),
            ("forgiven", "false"),
        ])
    );

    let item = InvoiceLineItemParams {
        amount: Some(-100),
        currency: Some(Currency::CAD),
        customer: Some("cus_1"),
        description: Some("credit"),
        discountable: Some(false),
        invoice: Some("in_1"),
        metadata: None,
        subscription: None,
    };
    assert_eq!(
        to_params(&item).entries,
        pairs(&[
            ("amount", "-100"),
            ("currency", "cad"),
            ("customer", "cus_1"),
            ("description", "credit"),
            ("discountable", "false"),
            ("invoice", "in_1"),
        ])
    );
}

#[test]
fn upcoming_invoice_always_names_the_customer() {
    let params = InvoiceUpcomingParams {
        customer: "cus_1",
        coupon: None,
        subscription: None,
        subscription_items: Some(SubscriptionItemParams {
            id: Some("si_1"),
            deleted: None,
            metadata: None,
            plan: Some("gold"),
            quantity: Some(2),
        }),
        subscription_prorate: Some(true),
        subscription_proration_date: Some(1690000000),
        subscription_tax_percent: None,
        subscription_trial_end: None,
    };
    assert_eq!(
        to_params(&params).entries,
        pairs(&[
            ("customer", "cus_1"),
            ("subscription_items[id]", "si_1"),
            ("subscription_items[plan]", "gold"),
            ("subscription_items[quantity]", "2"),
            ("subscription_prorate", "true"),
            ("subscription_proration_date", "1690000000"),
        ])
    );
    assert_eq!(
        to_params(&InvoiceUpcomingParams::default()).entries,
        pairs(&[("customer", "")])
    );
}

#[test]
fn listing_invoices_filters_by_date() {
    let params = InvoiceListParams {
        customer: Some("cus_1"),
        date: Some(RangeQuery::Exact(1690000000)),
        ending_before: None,
        limit: Some(20),
        starting_after: None,
        subscription: None,
    };
    assert_eq!(
        to_params(&params).entries,
        pairs(&[("customer", "cus_1"), ("date", "1690000000"), ("limit", "20")])
    );
}
