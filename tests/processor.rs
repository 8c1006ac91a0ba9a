use csv::Reader;
use txledger::amount::Amount;
use txledger::error::Error;
use txledger::processor::{FieldError, Processor, Record};

// Reads events from CSV lines under the usual header.
fn read_lines(lines: &[&str]) -> Vec<Record> {
    let mut data = String::from("type,client,tx,amount\n");
    for line in lines {
        data.push_str(line);
        data.push_str("\n");
    }
    read_records(&data).unwrap()
}

fn read_records(data: &str) -> Result<Vec<Record>, FieldError> {
    let mut rdr = Reader::from_reader(data.as_bytes());
    let mut out = Vec::new();
    for result in rdr.records() {
        let rec = result.unwrap();
        let client: u16 = rec[1].trim().parse().unwrap();
        let tx: u32 = rec[2].trim().parse().unwrap();
        let amount = rec.get(3).unwrap_or("");
        out.push(Record::parse(&rec[0], client, tx, amount)?);
    }
    Ok(out)
}

fn dec(num: i64) -> Amount {
    Amount::new(num, 0).unwrap()
}

fn dec_scaled(num: i64, scale: u32) -> Amount {
    Amount::new(num, scale).unwrap()
}

#[test]
fn deposit_success() {
    let records = read_lines(&[
        "deposit,1,61,100",
        "deposit,2,62,100",
        "deposit,3,64,120",
        "deposit,1,66,50",
    ]);
    let mut processor = Processor::new();
    for record in records {
        processor.process(record).unwrap();
    }
    assert_eq!(processor.accounts.account(1).unwrap().available(), dec(150));
    assert_eq!(processor.accounts.account(2).unwrap().available(), dec(100));
    assert_eq!(processor.accounts.account(3).unwrap().available(), dec(120));
}

#[test]
fn withdrawal_success() {
    let records = read_lines(&[
        "deposit,1,61,200",
        "deposit,2,62,200",
        "withdrawal,1,65,150",
        "withdrawal,2,70,20",
    ]);
    let mut processor = Processor::new();
    for record in records {
        processor.process(record).unwrap();
    }
    assert_eq!(processor.accounts.account(1).unwrap().available(), dec(50));
    assert_eq!(processor.accounts.account(2).unwrap().available(), dec(180));
}

#[test]
fn withdrawal_fail() {
    let records = read_lines(&["deposit,1,61,100", "deposit,2,90,200", "withdrawal,1,91,150"]);
    let mut processor = Processor::new();
    let mut records_iter = records.into_iter();
    processor.process(records_iter.next().unwrap()).unwrap();
    processor.process(records_iter.next().unwrap()).unwrap();
    assert_eq!(
        processor.process(records_iter.next().unwrap()),
        Err(Error::InsufficientFunds)
    );
    assert_eq!(processor.accounts.account(1).unwrap().available(), dec(100));
    assert_eq!(processor.accounts.account(2).unwrap().available(), dec(200));

    // A withdrawal from an account that was only just created.
    let records = read_lines(&["withdrawal,1,62,150", "deposit,1,61,100"]);
    let mut processor = Processor::new();
    let mut records_iter = records.into_iter();
    assert_eq!(
        processor.process(records_iter.next().unwrap()),
        Err(Error::InsufficientFunds)
    );
    assert_eq!(processor.accounts.account(1).unwrap().available(), Amount::zero());
}

#[test]
fn dispute() {
    // A dispute takes funds out of available.
    let records = read_lines(&[
        "deposit,1,61,100",
        "deposit,2,63,100",
        "deposit,1,64,120",
        "dispute,1,61,",
        "deposit,1,66,100",
    ]);
    let mut processor = Processor::new();
    for record in records {
        processor.process(record).unwrap();
    }
    assert_eq!(processor.accounts.account(1).unwrap().available(), dec(220));
    assert_eq!(processor.accounts.account(1).unwrap().total(), dec(320));
    assert_eq!(processor.accounts.account(2).unwrap().available(), dec(100));
    assert_eq!(processor.accounts.account(2).unwrap().total(), dec(100));

    // Resolving gives the funds back.
    let records = read_lines(&["resolve,1,61,", "deposit,1,69,100"]);
    for record in records {
        processor.process(record).unwrap();
    }
    assert_eq!(processor.accounts.account(1).unwrap().available(), dec(420));
    assert_eq!(processor.accounts.account(1).unwrap().total(), dec(420));

    // Resolving a transaction that is not disputed does nothing.
    let records = read_lines(&[
        "deposit,1,61,100",
        "deposit,1,64,120",
        "resolve,1,61,",
        "deposit,1,66,100",
    ]);
    let mut processor = Processor::new();
    for record in records {
        processor.process(record).unwrap();
    }
    assert_eq!(processor.accounts.account(1).unwrap().available(), dec(320));
    assert_eq!(processor.accounts.account(1).unwrap().total(), dec(320));
}

#[test]
fn chargeback() {
    let records = read_lines(&[
        "deposit,1,61,100",
        "deposit,2,63,100",
        "deposit,1,64,120",
        "dispute,1,61,",
        "deposit,1,66,100",
    ]);
    let mut processor = Processor::new();
    for record in records {
        processor.process(record).unwrap();
    }
    assert_eq!(processor.accounts.account(1).unwrap().available(), dec(220));
    assert_eq!(processor.accounts.account(1).unwrap().total(), dec(320));
    assert_eq!(processor.accounts.account(2).unwrap().available(), dec(100));
    assert_eq!(processor.accounts.account(2).unwrap().total(), dec(100));

    // After a chargeback the account is frozen and a deposit does nothing.
    let records = read_lines(&["chargeback,1,61,", "deposit,1,69,100"]);
    for record in records {
        processor.process(record).unwrap();
    }
    assert_eq!(processor.accounts.account(1).unwrap().available(), dec(220));
    assert_eq!(processor.accounts.account(1).unwrap().total(), dec(220));

    // A chargeback of a transaction that is not disputed is ignored.
    let records = read_lines(&[
        "deposit,1,61,100",
        "deposit,1,64,100",
        "chargeback,1,61,",
        "deposit,1,65,100",
    ]);
    let mut processor = Processor::new();
    for record in records {
        processor.process(record).unwrap();
    }
    assert_eq!(processor.accounts.account(1).unwrap().available(), dec(300));
    assert_eq!(processor.accounts.account(1).unwrap().total(), dec(300));
}

#[test]
fn nonexistent_transaction() {
    let records = read_lines(&[
        "deposit,1,61,100",
        "dispute,1,33,",
        "chargeback,1,33,",
        "deposit,1,62,100",
    ]);
    let mut processor = Processor::new();
    for record in records {
        processor.process(record).unwrap();
    }
    assert_eq!(processor.accounts.account(1).unwrap().available(), dec(200));
    assert_eq!(processor.accounts.account(1).unwrap().total(), dec(200));
}

#[test]
fn precision() {
    let records = read_lines(&["deposit,1,61,4.321", "withdrawal,1,62,1.001"]);
    let mut processor = Processor::new();
    for record in records {
        processor.process(record).unwrap();
    }
    assert_eq!(processor.accounts.account(1).unwrap().available(), dec_scaled(332, 2));
    assert_eq!(processor.accounts.account(1).unwrap().total(), dec_scaled(332, 2));

    // More than four fractional digits are refused.
    let mut data = String::from("type,client,tx,amount\n");
    data.push_str("deposit,1,61,4.32111");
    data.push_str("\n");
    let err = read_records(&data).err().unwrap();
    assert!(err
        .message()
        .contains("only up to four decimal places for precision is allowed"));
}

#[test]
fn reusing_tx() {
    // Transaction ids are unique over the whole run.
    let records = read_lines(&["deposit,1,61,4.321", "deposit,1,61,1.001"]);
    let mut processor = Processor::new();
    let mut records_iter = records.into_iter();
    processor.process(records_iter.next().unwrap()).unwrap();
    assert_eq!(
        processor.process(records_iter.next().unwrap()),
        Err(Error::TxExists)
    )
}

#[test]
fn undisputed_accounts() {
    // A chargeback of a transaction that is not disputed.
    let records = read_lines(&["deposit,1,61,400", "chargeback,1,61,", "deposit,1,62,100"]);
    let mut processor = Processor::new();
    for record in records {
        processor.process(record).unwrap();
    }
    assert_eq!(processor.accounts.account(1).unwrap().available(), dec(500));
    assert_eq!(processor.accounts.account(1).unwrap().total(), dec(500));
}
