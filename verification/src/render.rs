//! The text in which a run is reported.
//!
//! A list of records is written as `hid devices: [`, the records with a comma
//! between each two, and a closing `]` on a line of its own. A list of no
//! records, of one and of many are written by the same rule. Each record is a
//! block of lines, one field to a line, with texts in double quotes.

use crate::report::{USBInfo, UsbInfoView};
use vstd::prelude::*;
use vstd::string::StringExecFns;

verus! {

/// The character that writes a digit below ten.
pub open spec fn digit_char(digit: nat) -> char {
    if digit == 0 {
        '0'
    } else if digit == 1 {
        '1'
    } else if digit == 2 {
        '2'
    } else if digit == 3 {
        '3'
    } else if digit == 4 {
        '4'
    } else if digit == 5 {
        '5'
    } else if digit == 6 {
        '6'
    } else if digit == 7 {
        '7'
    } else if digit == 8 {
        '8'
    } else {
        '9'
    }
}

/// A number in decimal digits, without leading zeros.
pub open spec fn decimal_text(n: nat) -> Seq<char>
    decreases n,
{
    if n < 10 {
        seq![digit_char(n)]
    } else {
        decimal_text(n / 10).push(digit_char(n % 10))
    }
}

/// A text in double quotes, with escapes for what cannot stand in it as it
/// is: the form in which std's `Debug` writes a `str`.
pub uninterp spec fn quoted_text(text: Seq<char>) -> Seq<char>;

/// An optional text: `None`, or the quoted text inside `Some(..)`.
pub open spec fn optional_text(text: Option<Seq<char>>) -> Seq<char> {
    match text {
        Some(text) => "Some("@ + quoted_text(text) + ")"@,
        None => "None"@,
    }
}

/// An optional number: `None`, or its decimal digits inside `Some(..)`.
pub open spec fn optional_number(n: Option<u32>) -> Seq<char> {
    match n {
        Some(n) => "Some("@ + decimal_text(n as nat) + ")"@,
        None => "None"@,
    }
}

/// The block of lines that reports one record.
pub open spec fn record_text(record: UsbInfoView) -> Seq<char> {
    "\n        HD:\n            path: "@ + quoted_text(record.path)
        + ",\n            product_id: "@ + decimal_text(record.product_id as nat)
        + ",\n            vendor_id: "@ + decimal_text(record.vendor_id as nat)
        + ",\n            product_string:"@ + optional_text(record.product_string)
        + ",\n            serial_number_string:"@ + optional_text(record.serial_number_string)
        + ",\n            dev_inst:"@ + optional_number(record.dev_inst)
        + ",\n            pdo_name:"@ + optional_text(record.pdo_name) + "\n        "@
}

/// The blocks of `records`, with a comma between each two.
pub open spec fn joined_text(records: Seq<UsbInfoView>) -> Seq<char>
    decreases records.len(),
{
    if records.len() == 0 {
        Seq::empty()
    } else if records.len() == 1 {
        record_text(records[0])
    } else {
        joined_text(records.drop_last()) + ","@ + record_text(records.last())
    }
}

/// The report of a list of records.
pub open spec fn list_text(records: Seq<UsbInfoView>) -> Seq<char> {
    "hid devices: ["@ + joined_text(records) + "\n]"@
}

/// The report of no records is the opening and the closing alone.
pub proof fn empty_list_text()
    ensures
        list_text(Seq::empty()) == "hid devices: ["@ + "\n]"@,
{
    assert("hid devices: ["@ + Seq::<char>::empty() =~= "hid devices: ["@);
}

/// Formatting a `str` with `{:?}`, which is the `Debug` of std for `str`.
/// Believed of it: the result depends on the text alone.
#[verifier::external_body]
fn debug_quoted(text: &str) -> (r: String)
    ensures
        r@ == quoted_text(text@),
{
    format!("{:?}", text)
}

/// The digit below ten as a text of one character.
fn digit_str(digit: u32) -> (r: &'static str)
    requires
        digit < 10,
    ensures
        r@ == seq![digit_char(digit as nat)],
{
    proof {
        reveal_strlit("0");
        reveal_strlit("1");
        reveal_strlit("2");
        reveal_strlit("3");
        reveal_strlit("4");
        reveal_strlit("5");
        reveal_strlit("6");
        reveal_strlit("7");
        reveal_strlit("8");
        reveal_strlit("9");
    }
    let r = if digit == 0 {
        "0"
    } else if digit == 1 {
        "1"
    } else if digit == 2 {
        "2"
    } else if digit == 3 {
        "3"
    } else if digit == 4 {
        "4"
    } else if digit == 5 {
        "5"
    } else if digit == 6 {
        "6"
    } else if digit == 7 {
        "7"
    } else if digit == 8 {
        "8"
    } else {
        "9"
    };
    assert(r@ =~= seq![digit_char(digit as nat)]);
    r
}

/// Writes a number in decimal digits.
pub fn decimal(n: u32) -> (r: String)
    ensures
        r@ == decimal_text(n as nat),
    decreases n,
{
    if n < 10 {
        String::from_str(digit_str(n))
    } else {
        let mut text = decimal(n / 10);
        text.append(digit_str(n % 10));
        assert(text@ =~= decimal_text((n / 10) as nat).push(digit_char((n % 10) as nat)));
        text
    }
}

/// Writes an optional text.
fn optional(text: &Option<String>) -> (r: String)
    ensures
        r@ == optional_text(text.deep_view()),
{
    match text {
        Some(text) => {
            let mut out = String::from_str("Some(");
            out.append(debug_quoted(text.as_str()).as_str());
            out.append(")");
            out
        },
        None => String::from_str("None"),
    }
}

/// Writes an optional number.
fn optional_decimal(n: Option<u32>) -> (r: String)
    ensures
        r@ == optional_number(n),
{
    match n {
        Some(n) => {
            let mut out = String::from_str("Some(");
            out.append(decimal(n).as_str());
            out.append(")");
            out
        },
        None => String::from_str("None"),
    }
}

impl USBInfo {
    /// Writes the record as a block of lines.
    pub fn to_string(&self) -> (r: String)
        ensures
            r@ == record_text(self@),
    {
        let mut out = String::from_str("\n        HD:\n            path: ");
        out.append(debug_quoted(self.path.as_str()).as_str());
        out.append(",\n            product_id: ");
        out.append(decimal(self.product_id as u32).as_str());
        out.append(",\n            vendor_id: ");
        out.append(decimal(self.vendor_id as u32).as_str());
        out.append(",\n            product_string:");
        out.append(optional(&self.product_string).as_str());
        out.append(",\n            serial_number_string:");
        out.append(optional(&self.serial_number_string).as_str());
        out.append(",\n            dev_inst:");
        out.append(optional_decimal(self.dev_inst).as_str());
        out.append(",\n            pdo_name:");
        out.append(optional(&self.pdo_name).as_str());
        out.append("\n        ");
        out
    }
}

/// A list of records, for writing out.
pub struct NumVec(pub Vec<USBInfo>);

impl NumVec {
    /// Writes the list: the opening, the records with a comma between each
    /// two, and the closing. A list of no records is the opening and the
    /// closing.
    pub fn to_string(&self) -> (r: String)
        ensures
            r@ == list_text(self.0.deep_view()),
    {
        let ghost records = self.0.deep_view();
        let mut out = String::from_str("hid devices: [");
        let n: usize = self.0.len();
        let mut i: usize = 0;
        proof {
            assert(records.take(0) =~= Seq::empty());
            assert(out@ =~= "hid devices: ["@ + joined_text(records.take(0)));
        }
        while i < n
            invariant
                records == self.0.deep_view(),
                n == self.0@.len(),
                0 <= i <= n,
                out@ == "hid devices: ["@ + joined_text(records.take(i as int)),
            decreases n - i,
        {
            let ghost before = out@;
            proof {
                assert(records.take(i + 1).drop_last() =~= records.take(i as int));
                assert(records.take(i + 1).last() == self.0@[i as int]@);
            }
            if i > 0 {
                out.append(",");
            }
            out.append(self.0[i].to_string().as_str());
            proof {
                if i == 0 {
                    assert(records.take(1)[0] == self.0@[0]@);
                    assert(out@ =~= "hid devices: ["@ + joined_text(records.take(1)));
                } else {
                    assert(out@ =~= "hid devices: ["@ + joined_text(records.take(i + 1)));
                }
            }
            i = i + 1;
        }
        proof {
            assert(records.take(n as int) =~= records);
        }
        out.append("\n]");
        out
    }
}

} // verus!
