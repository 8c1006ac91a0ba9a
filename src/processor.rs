use crate::account::Account;
use crate::amount::{
    decimal_from_str, decimal_parse, lemma_pow10_monotonic, pow10, pow10_exec, Amount, MAX_UNITS,
    SCALE,
};
use crate::error::Error;
use crate::ledger::{Accounts, LedgerView};
use vstd::prelude::*;

verus! {

/// The kind of an event.
#[derive(Debug, Clone, Copy, PartialEq, Eq, Structural)]
pub enum Type {
    Deposit,
    Withdrawal,
    Dispute,
    Resolve,
    Chargeback,
}

/// Why the fields of an event could not be read.
#[derive(Debug, Clone, Copy, PartialEq, Eq, Structural)]
pub enum FieldError {
    /// The kind names none of the five event kinds.
    UnknownType,
    /// The amount is not a decimal number.
    Malformed,
    /// The amount has more than four fractional digits.
    TooPrecise,
    /// The amount is below zero.
    Negative,
    /// The amount is too large to be held with four fractional digits.
    TooLarge,
}

impl FieldError {
    /// A short description of the failure.
    pub fn message(&self) -> (r: &'static str) {
        match self {
            FieldError::UnknownType => "invalid type",
            FieldError::Malformed => "invalid decimal",
            FieldError::TooPrecise => "only up to four decimal places for precision is allowed",
            FieldError::Negative => "negative amounts are not allowed",
            FieldError::TooLarge => "amount too large",
        }
    }
}

/// What std's `str::to_lowercase` makes of a text.
pub uninterp spec fn lower_of(s: Seq<char>) -> Seq<char>;

/// Relies on std's `str::to_lowercase`: the lowercase form of a text depends on its
/// characters alone.
#[verifier::external_body]
fn lowercase(s: &str) -> (r: String)
    ensures
        r@ == lower_of(s@),
{
    s.to_lowercase()
}

/// The event kind that a lowercase name stands for.
pub open spec fn type_named(t: Seq<char>) -> Option<Type> {
    if t == "deposit"@ {
        Some(Type::Deposit)
    } else if t == "withdrawal"@ {
        Some(Type::Withdrawal)
    } else if t == "dispute"@ {
        Some(Type::Dispute)
    } else if t == "resolve"@ {
        Some(Type::Resolve)
    } else if t == "chargeback"@ {
        Some(Type::Chargeback)
    } else {
        None
    }
}

/// The event kind named by `s`, in any letter case.
pub fn parse_type(s: &str) -> (r: Option<Type>)
    ensures
        r == type_named(lower_of(s@)),
{
    let t = lowercase(s);
    if t == "deposit".to_owned() {
        Some(Type::Deposit)
    } else if t == "withdrawal".to_owned() {
        Some(Type::Withdrawal)
    } else if t == "dispute".to_owned() {
        Some(Type::Dispute)
    } else if t == "resolve".to_owned() {
        Some(Type::Resolve)
    } else if t == "chargeback".to_owned() {
        Some(Type::Chargeback)
    } else {
        None
    }
}

/// The number of ten-thousandths in the decimal `m` times ten to the power `-scale`,
/// rounded toward zero.
pub open spec fn units_of(m: int, scale: nat) -> int {
    if scale <= SCALE {
        m * pow10((SCALE - scale) as nat)
    } else {
        m / pow10((scale - SCALE) as nat)
    }
}

/// Whether the decimal `m` times ten to the power `-scale` has at most four fractional
/// digits.
pub open spec fn fits_scale(m: int, scale: nat) -> bool {
    scale <= SCALE || m % pow10((scale - SCALE) as nat) == 0
}

/// The amount written in a decimal text of the given reading: nothing for an empty text;
/// an error for a text that is no decimal, or is negative, or needs more than four
/// fractional digits, or too many units.
pub open spec fn amount_read(empty: bool, parsed: Option<(i128, u32)>) -> Result<
    Option<Amount>,
    FieldError,
> {
    if empty {
        Ok(None)
    } else {
        match parsed {
            None => Err(FieldError::Malformed),
            Some(p) => if p.0 < 0 {
                Err(FieldError::Negative)
            } else if !fits_scale(p.0 as int, p.1 as nat) {
                Err(FieldError::TooPrecise)
            } else if units_of(p.0 as int, p.1 as nat) > MAX_UNITS {
                Err(FieldError::TooLarge)
            } else {
                Ok(Some(Amount { units: units_of(p.0 as int, p.1 as nat) as i128 }))
            },
        }
    }
}

/// Reads the amount of an event: `None` for an empty field.
pub fn parse_amount(s: &str) -> (r: Result<Option<Amount>, FieldError>)
    ensures
        r == amount_read(s@.len() == 0, decimal_parse(s@)),
{
    if s.is_empty() {
        return Ok(None);
    }
    let (m, scale) = match decimal_from_str(s) {
        Some(p) => p,
        None => return Err(FieldError::Malformed),
    };
    if m < 0 {
        return Err(FieldError::Negative);
    }
    let units: i128;
    if scale > SCALE {
        let d = pow10_exec(scale - SCALE);
        proof {
            lemma_pow10_monotonic(0, (scale - SCALE) as nat);
        }
        if m % d != 0 {
            return Err(FieldError::TooPrecise);
        }
        units = m / d;
        proof {
            assert(m / d <= m) by (nonlinear_arith)
                requires
                    m >= 0,
                    d >= 1,
            ;
        }
    } else {
        let f = pow10_exec(SCALE - scale);
        proof {
            lemma_pow10_monotonic((SCALE - scale) as nat, 4);
            reveal_with_fuel(pow10, 5);
            assert(0 <= m * f <= MAX_UNITS * 10000) by (nonlinear_arith)
                requires
                    0 <= m <= MAX_UNITS,
                    1 <= f <= 10000,
            ;
        }
        units = m * f;
    }
    if units > MAX_UNITS {
        return Err(FieldError::TooLarge);
    }
    Ok(Some(Amount { units }))
}

/// One event of the log.
#[derive(Debug, Clone, Copy, PartialEq, Eq, Structural)]
pub struct Record {
    pub ty: Type,
    pub client: u16,
    pub tx: u32,
    pub amount: Option<Amount>,
}

impl Record {
    /// The event with kind name `ty` and amount text `amount`.
    pub fn parse(ty: &str, client: u16, tx: u32, amount: &str) -> (r: Result<Record, FieldError>)
        ensures
            r == (match type_named(lower_of(ty@)) {
                None => Err(FieldError::UnknownType),
                Some(t) => match amount_read(amount@.len() == 0, decimal_parse(amount@)) {
                    Ok(a) => Ok(Record { ty: t, client, tx, amount: a }),
                    Err(e) => Err(e),
                },
            }),
    {
        let t = match parse_type(ty) {
            Some(t) => t,
            None => return Err(FieldError::UnknownType),
        };
        match parse_amount(amount) {
            Ok(a) => Ok(Record { ty: t, client, tx, amount: a }),
            Err(e) => Err(e),
        }
    }
}

/// The effect of one event on a ledger.
pub open spec fn event_step(s: LedgerView, record: Record) -> (Result<(), Error>, LedgerView) {
    match record.ty {
        Type::Deposit => match record.amount {
            None => (Err(Error::InvalidData), s),
            Some(amount) => s.deposit_step(record.client, amount, record.tx),
        },
        Type::Withdrawal => match record.amount {
            None => (Err(Error::InvalidData), s),
            Some(amount) => s.withdraw_step(record.client, amount, record.tx),
        },
        Type::Dispute => s.dispute_step(record.client, record.tx),
        Type::Resolve => s.resolve_step(record.client, record.tx),
        Type::Chargeback => s.chargeback_step(record.client, record.tx),
    }
}

/// Applies events, one at a time and in order, to a ledger.
#[derive(Debug)]
pub struct Processor {
    pub accounts: Accounts,
}

impl Processor {
    /// A processor over an empty ledger.
    pub fn new() -> (r: Processor)
        ensures
            r.accounts@.accounts == Map::<u16, Account>::empty(),
            r.accounts@.txs == Map::<u32, crate::account::Transaction>::empty(),
            r.accounts@.wf(),
    {
        Processor { accounts: Accounts::new() }
    }

    /// Applies one event.
    pub fn process(&mut self, record: Record) -> (r: Result<(), Error>)
        requires
            old(self).accounts@.wf(),
        ensures
            (r, final(self).accounts@) == event_step(old(self).accounts@, record),
            final(self).accounts@.wf(),
    {
        match record.ty {
            Type::Deposit => {
                let amount = match record.amount {
                    Some(a) => a,
                    None => return Err(Error::InvalidData),
                };
                self.accounts.deposit(record.client, amount, record.tx)
            },
            Type::Withdrawal => {
                let amount = match record.amount {
                    Some(a) => a,
                    None => return Err(Error::InvalidData),
                };
                self.accounts.withdraw(record.client, amount, record.tx)
            },
            Type::Dispute => self.accounts.dispute(record.client, record.tx),
            Type::Resolve => self.accounts.resolve(record.client, record.tx),
            Type::Chargeback => self.accounts.chargeback(record.client, record.tx),
        }
    }
}

} // verus!
