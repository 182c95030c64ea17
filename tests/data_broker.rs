use midas_scribble::data_broker::{
    read_in_prepare_statement, read_in_statement_response, retrieve_flex_statement,
    DownloadError, Downloader, FlexQueryResponse,
};
use midas_scribble::decimal::Dec;
use midas_scribble::{
    analyze, download_flexresponse, fetch_url, order_query, parse, retrieve, submit_url, Context,
};
use std::cell::RefCell;

const ACK_SUCCESS: &str = "<?xml version=\"1.0\" encoding=\"utf-8\" ?>
<FlexStatementResponse timestamp=\"28 August, 2012 10:37 AM EDT\">
  <Status>Success</Status>
  <ReferenceCode>1234567890</ReferenceCode>
  <Url>https://gdcdyn.interactivebrokers.com/Universal/servlet/FlexStatementService.GetStatement</Url>
</FlexStatementResponse>";

const FULL_REPORT: &str = "<FlexQueryResponse>
  <queryName>parser</queryName>
  <type>AF</type>
  <FlexStatements>
    <count>1</count>
    <FlexStatement>
      <accountId>U5241807</accountId>
      <fromDate>20230101</fromDate>
      <toDate>20231231</toDate>
      <period>LastYear</period>
      <AccountInformation>
        <accountId>U5241807</accountId>
        <currency>EUR</currency>
        <name>Jane Doe</name>
        <primaryEmail>jane@example.com</primaryEmail>
      </AccountInformation>
      <OpenPositions>
        <OpenPosition>
          <accountId>U5241807</accountId>
          <currency>EUR</currency>
          <fxRateToBase>1</fxRateToBase>
          <assetCategory>STK</assetCategory>
          <symbol>MC</symbol>
          <description>LVMH MOET HENNESSY LOUIS VUI</description>
          <position>30</position>
          <markPrice>612.5</markPrice>
          <positionValueInBase>18375</positionValueInBase>
          <multiplier>1</multiplier>
          <costBasisPrice>580.25</costBasisPrice>
        </OpenPosition>
        <OpenPosition>
          <accountId>U5241807</accountId>
          <currency>USD</currency>
          <fxRateToBase>0.9123</fxRateToBase>
          <assetCategory>STK</assetCategory>
          <symbol>AAPL</symbol>
          <description>APPLE INC</description>
          <position>12</position>
          <multiplier>1</multiplier>
        </OpenPosition>
      </OpenPositions>
      <Trades>
        <Trade>
          <accountId>U5241807</accountId>
          <currency>EUR</currency>
          <symbol>MC</symbol>
          <description>LVMH MOET HENNESSY LOUIS VUI</description>
          <quantity>20</quantity>
          <proceeds>-11600.5</proceeds>
          <ibCommission>-4.5</ibCommission>
          <openCloseIndicator>O</openCloseIndicator>
        </Trade>
        <Trade>
          <accountId>U5241807</accountId>
          <currency>EUR</currency>
          <symbol>MC</symbol>
          <description>LVMH MOET HENNESSY LOUIS VUI</description>
          <quantity>10</quantity>
        </Trade>
      </Trades>
      <CashTransactions>
        <CashTransaction>
          <accountId>U5241807</accountId>
          <currency>EUR</currency>
          <description>MC CASH DIVIDEND EUR 7.50 PER SHARE</description>
          <amount>225</amount>
          <type>Dividends</type>
        </CashTransaction>
      </CashTransactions>
    </FlexStatement>
  </FlexStatements>
</FlexQueryResponse>";

const NO_SECTIONS: &str = "<FlexQueryResponse><queryName>q</queryName><FlexStatements><count>1</count>\
<FlexStatement><accountId>A1</accountId></FlexStatement></FlexStatements></FlexQueryResponse>";

enum Answer {
    Body(&'static str),
    Fail(DownloadError),
}

struct Stub {
    answers: Vec<Answer>,
    urls: RefCell<Vec<String>>,
}

impl Stub {
    fn new(answers: Vec<Answer>) -> Stub {
        Stub { answers, urls: RefCell::new(Vec::new()) }
    }

    fn calls(&self) -> usize {
        self.urls.borrow().len()
    }
}

impl Downloader for Stub {
    fn download(&self, url: &str) -> Result<String, DownloadError> {
        let n = self.calls();
        self.urls.borrow_mut().push(url.to_string());
        match &self.answers[n] {
            Answer::Body(b) => Ok(b.to_string()),
            Answer::Fail(e) => Err(e.clone()),
        }
    }
}

fn report() -> FlexQueryResponse {
    read_in_statement_response(FULL_REPORT).unwrap()
}

#[test]
fn test_prepare_statement() {
    let response = read_in_prepare_statement(ACK_SUCCESS).unwrap();
    println!("reference code is: {}", response.reference_code);
    println!("url is: {}", response.url);
    assert!(response.status == "Success");
}

#[test]
fn test_return_statement() {
    let response: FlexQueryResponse = read_in_statement_response(FULL_REPORT).unwrap();
    assert!(response.query_name == "parser");
    let flex_statements = response.flex_statements.unwrap();
    assert!(flex_statements.count == 1);
    let flex_statements_vec = flex_statements.flex_statement;
    let flex_statement_1 = flex_statements_vec.get(0).unwrap();
    assert!(flex_statement_1.account_id == "U5241807");
    let first_position = flex_statement_1.open_positions.as_ref().unwrap().open_position.get(0).unwrap();
    assert!(first_position.currency == "EUR");
    assert!(first_position.symbol == "MC");
    assert!(first_position.asset_category == "STK");
    println!("position amount: {}", first_position.position.to_text());
    assert!(first_position.position.to_text() == "30");
}

#[test]
fn dump_open_positions() {
    let response = report();
    for open_position in response.open_positions().unwrap() {
        println!("open position: {}", open_position.description)
    }
}

#[test]
fn dump_trades() {
    let response = report();
    for trades in response.trades().unwrap() {
        println!("traded: {} of {}", trades.quantity.to_text(), trades.description)
    }
}

#[test]
fn dump_cash_transactions() {
    let response = report();
    for cash_transaction in response.cash_transactions().unwrap() {
        println!("cash transaction: {} for amount {}", cash_transaction.description, cash_transaction.amount.to_text())
    }
}

#[test]
fn acknowledgment_fields_match_tags() {
    let ack = read_in_prepare_statement(
        "<FlexStatementResponse><Status>Success</Status><ReferenceCode>r1</ReferenceCode><Url>http://x</Url></FlexStatementResponse>",
    )
    .unwrap();
    assert_eq!(ack.status, "Success");
    assert_eq!(ack.reference_code, "r1");
    assert_eq!(ack.url, "http://x");
}

#[test]
fn acknowledgment_missing_fields_are_empty() {
    let ack = read_in_prepare_statement("<FlexStatementResponse><Status>Warn</Status></FlexStatementResponse>").unwrap();
    assert_eq!(ack.status, "Warn");
    assert_eq!(ack.reference_code, "");
    assert_eq!(ack.url, "");
}

#[test]
fn acknowledgment_not_well_formed_is_decode_error() {
    let r = read_in_prepare_statement("<FlexStatementResponse><Status>Success</Url></FlexStatementResponse>");
    assert!(matches!(r, Err(DownloadError::Decode(_))));
    assert!(matches!(read_in_prepare_statement(""), Err(DownloadError::Decode(_))));
    assert!(matches!(read_in_prepare_statement("<a><b></b>"), Err(DownloadError::Decode(_))));
}

#[test]
fn entities_in_text_are_resolved() {
    let ack = read_in_prepare_statement(
        "<R><Url>http://x/a?b=1&amp;c=2</Url><Status> Success </Status></R>",
    )
    .unwrap();
    assert_eq!(ack.url, "http://x/a?b=1&c=2");
    assert_eq!(ack.status, "Success");
}

#[test]
fn sections_keep_document_order() {
    let r = report();
    let positions = r.open_positions().unwrap();
    assert_eq!(positions.len(), 2);
    assert_eq!(positions[0].symbol, "MC");
    assert_eq!(positions[1].symbol, "AAPL");
    assert_eq!(positions[1].fx_rate_to_base.to_text(), "0.9123");
    let trades = r.trades().unwrap();
    assert_eq!(trades.len(), 2);
    assert_eq!(trades[0].quantity.to_text(), "20");
    assert_eq!(trades[1].quantity.to_text(), "10");
    assert_eq!(trades[0].proceeds.to_text(), "-11600.5");
    assert_eq!(trades[0].ib_commission.mantissa(), -45);
    assert_eq!(trades[0].ib_commission.scale(), 1);
    let cash = r.cash_transactions().unwrap();
    assert_eq!(cash.len(), 1);
    assert_eq!(cash[0].type_enum, "Dividends");
    assert_eq!(cash[0].amount.to_text(), "225");
    let info = r.flex_statements.as_ref().unwrap().flex_statement[0].account_information.as_ref().unwrap();
    assert_eq!(info.name, "Jane Doe");
    assert_eq!(info.primary_email, "jane@example.com");
}

#[test]
fn absent_sections_are_none() {
    let r = read_in_statement_response(NO_SECTIONS).unwrap();
    assert!(r.trades().is_none());
    assert!(r.open_positions().is_none());
    assert!(r.cash_transactions().is_none());
    let s = &r.flex_statements.as_ref().unwrap().flex_statement[0];
    assert!(s.account_information.is_none());
    assert_eq!(s.account_id, "A1");
    assert_eq!(s.period, "");
}

#[test]
fn no_statement_gives_no_sections() {
    let r = read_in_statement_response("<FlexQueryResponse><queryName>q</queryName></FlexQueryResponse>").unwrap();
    assert!(r.flex_statements.is_none());
    assert!(r.trades().is_none());
    let r = read_in_statement_response("<FlexQueryResponse><FlexStatements/></FlexQueryResponse>").unwrap();
    assert_eq!(r.flex_statements.as_ref().unwrap().count, 0);
    assert!(r.trades().is_none());
}

#[test]
fn empty_trades_section_is_empty_sequence() {
    let r = read_in_statement_response(
        "<FlexQueryResponse><FlexStatements><FlexStatement><Trades></Trades></FlexStatement></FlexStatements></FlexQueryResponse>",
    )
    .unwrap();
    assert_eq!(r.trades().unwrap().len(), 0);
}

#[test]
fn absent_numeric_field_is_zero() {
    let r = report();
    let trade = &r.trades().unwrap()[1];
    assert_eq!(trade.taxes, Dec::zero());
    assert_eq!(trade.net_cash.to_text(), "0");
    assert_eq!(trade.put_call, "");
}

#[test]
fn decimal_thirty_round_trips() {
    let d = Dec::parse("30").unwrap();
    assert_eq!(d.mantissa(), 30);
    assert_eq!(d.scale(), 0);
    assert_eq!(d.to_text(), "30");
    let d = Dec::parse("612.50").unwrap();
    assert_eq!(d.mantissa(), 61250);
    assert_eq!(d.scale(), 2);
    assert_eq!(d.to_text(), "612.50");
}

#[test]
fn decimal_rejects_non_numbers() {
    assert!(Dec::parse("abc").is_none());
    assert!(Dec::parse("").is_none());
    assert!(Dec::parse("1.2.3").is_none());
}

#[test]
fn malformed_quantity_is_decode_error() {
    let doc = "<FlexQueryResponse><FlexStatements><FlexStatement><Trades><Trade>\
<quantity>abc</quantity></Trade></Trades></FlexStatement></FlexStatements></FlexQueryResponse>";
    assert!(matches!(read_in_statement_response(doc), Err(DownloadError::Decode(_))));
}

#[test]
fn malformed_count_is_decode_error() {
    let doc = "<FlexQueryResponse><FlexStatements><count>one</count></FlexStatements></FlexQueryResponse>";
    assert!(matches!(read_in_statement_response(doc), Err(DownloadError::Decode(_))));
}

#[test]
fn urls_follow_the_protocol() {
    assert_eq!(
        submit_url("tok", "42"),
        "https://gdcdyn.interactivebrokers.com/Universal/servlet/FlexStatementService.SendRequest?t=tok&q=42&v=3"
    );
    let ack = read_in_prepare_statement(
        "<R><Status>Success</Status><ReferenceCode>r1</ReferenceCode><Url>http://x</Url></R>",
    )
    .unwrap();
    assert_eq!(fetch_url(&ack, "tok"), "http://x?q=r1&t=tok&v=3");
}

#[test]
fn retrieve_equals_fetch_with_the_acknowledgment() {
    let stub = Stub::new(vec![Answer::Body(ACK_SUCCESS), Answer::Body(FULL_REPORT)]);
    let context = Context { strategy: stub };
    let composed = retrieve(&context, "tok", "42").unwrap();
    assert_eq!(context.strategy.calls(), 2);
    let urls = context.strategy.urls.borrow().clone();
    assert!(urls[0].ends_with("SendRequest?t=tok&q=42&v=3"));
    assert_eq!(
        urls[1],
        "https://gdcdyn.interactivebrokers.com/Universal/servlet/FlexStatementService.GetStatement?q=1234567890&t=tok&v=3"
    );

    let direct_stub = Stub::new(vec![Answer::Body(FULL_REPORT)]);
    let direct_context = Context { strategy: direct_stub };
    let ack = read_in_prepare_statement(ACK_SUCCESS).unwrap();
    let direct = download_flexresponse(&direct_context, ack, "tok").unwrap();
    assert_eq!(composed, direct);
    assert_eq!(direct_context.strategy.urls.borrow()[0], urls[1]);
}

#[test]
fn submit_failure_is_returned_unchanged() {
    let stub = Stub::new(vec![
        Answer::Fail(DownloadError::Http(500, String::from("boom"))),
        Answer::Body(FULL_REPORT),
    ]);
    let context = Context { strategy: stub };
    let r = retrieve(&context, "tok", "42");
    assert_eq!(r, Err(DownloadError::Http(500, String::from("boom"))));
    assert_eq!(context.strategy.calls(), 1);
}

#[test]
fn fetch_failure_is_returned_unchanged() {
    let stub = Stub::new(vec![
        Answer::Body(ACK_SUCCESS),
        Answer::Fail(DownloadError::Io(String::from("Generic"))),
    ]);
    let r = retrieve_flex_statement(stub, "tok", "42");
    assert_eq!(r, Err(DownloadError::Io(String::from("Generic"))));
}

#[test]
fn undecodable_acknowledgment_stops_retrieval() {
    let stub = Stub::new(vec![Answer::Body("not a document <"), Answer::Body(FULL_REPORT)]);
    let context = Context { strategy: stub };
    let r = order_query(&context, "tok", "42");
    assert!(matches!(r, Err(DownloadError::Decode(_))));
    assert_eq!(context.strategy.calls(), 1);
    let stub = Stub::new(vec![Answer::Body("not a document <"), Answer::Body(FULL_REPORT)]);
    let context = Context { strategy: stub };
    let r = analyze(&context, "tok", "42");
    assert!(matches!(r, Err(DownloadError::Decode(_))));
    assert_eq!(context.strategy.calls(), 1);
}

#[test]
fn analyze_summarises_cash_transactions() {
    let stub = Stub::new(vec![Answer::Body(ACK_SUCCESS), Answer::Body(FULL_REPORT)]);
    let context = Context { strategy: stub };
    assert_eq!(analyze(&context, "tok", "42").unwrap(), "value");
    let stub = Stub::new(vec![Answer::Body(ACK_SUCCESS), Answer::Body(NO_SECTIONS)]);
    let context = Context { strategy: stub };
    assert_eq!(analyze(&context, "tok", "42").unwrap(), "empty");
    assert_eq!(parse(read_in_statement_response(NO_SECTIONS).unwrap()), "empty");
}

#[test]
fn context_download_passes_through() {
    let stub = Stub::new(vec![Answer::Body("abc")]);
    let context = Context { strategy: stub };
    assert_eq!(context.download("u").unwrap(), "abc");
    assert_eq!(context.strategy.urls.borrow()[0], "u");
}
