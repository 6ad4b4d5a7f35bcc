//! The measurement kinds a user can ask for, the tokens that name them, and
//! the server variable behind each of them.

use vstd::prelude::*;
use crate::failure::Failure;
use crate::text::{chars_of, is_word};

verus! {

/// A measurement that can be reported for a UPS.
#[derive(Clone, Copy, Debug, PartialEq, PartialOrd, Eq, Ord, Structural)]
pub enum UsageType {
    VoltageIn,
    VoltageOut,
    CurrentOut,
    /// Output voltage times output current; no single server variable holds it.
    Power,
}

/// The measurement that a token names, if it names one. Tokens are taken
/// literally: case matters and nothing is trimmed.
pub open spec fn resolve(token: Seq<char>) -> Option<UsageType> {
    if token == "vin"@ || token == "volt_in"@ || token == "voltage_in"@ {
        Some(UsageType::VoltageIn)
    } else if token == "vout"@ || token == "volt_out"@ || token == "voltage_out"@ {
        Some(UsageType::VoltageOut)
    } else if token == "cout"@ || token == "cur_out"@ || token == "current_out"@ {
        Some(UsageType::CurrentOut)
    } else if token == "pwr"@ || token == "power"@ {
        Some(UsageType::Power)
    } else {
        None
    }
}

/// The name of the server variable that carries a measurement. `Power` is
/// derived from two variables and has no name of its own: the empty text.
pub open spec fn variable_name(kind: UsageType) -> Seq<char> {
    match kind {
        UsageType::VoltageIn => "input.voltage"@,
        UsageType::VoltageOut => "output.voltage"@,
        UsageType::CurrentOut => "output.current"@,
        UsageType::Power => Seq::empty(),
    }
}

impl UsageType {
    /// Reads a token as a measurement kind.
    pub fn from_str(s: &str) -> (kind: Result<UsageType, Failure>)
        ensures
            kind is Ok <==> resolve(s@) is Some,
            kind matches Ok(k) ==> resolve(s@) == Some(k),
            kind matches Err(failure) ==> failure == Failure::InvalidUsageType,
    {
        let token = chars_of(s);
        if is_word(&token, "vin") || is_word(&token, "volt_in") || is_word(&token, "voltage_in") {
            Ok(UsageType::VoltageIn)
        } else if is_word(&token, "vout") || is_word(&token, "volt_out") || is_word(
            &token,
            "voltage_out",
        ) {
            Ok(UsageType::VoltageOut)
        } else if is_word(&token, "cout") || is_word(&token, "cur_out") || is_word(
            &token,
            "current_out",
        ) {
            Ok(UsageType::CurrentOut)
        } else if is_word(&token, "pwr") || is_word(&token, "power") {
            Ok(UsageType::Power)
        } else {
            Err(Failure::InvalidUsageType)
        }
    }

    /// The server variable to fetch for this measurement; empty for `Power`,
    /// which is never fetched as such.
    pub fn var_name(&self) -> (name: &'static str)
        ensures
            name@ == variable_name(*self),
    {
        match self {
            UsageType::VoltageIn => "input.voltage",
            UsageType::VoltageOut => "output.voltage",
            UsageType::CurrentOut => "output.current",
            UsageType::Power => {
                proof {
                    reveal_strlit("");
                }
                ""
            },
        }
    }
}

/// Every accepted token names the measurement that the table gives for it.
pub proof fn lemma_synonyms_resolve()
    ensures
        resolve("vin"@) == Some(UsageType::VoltageIn),
        resolve("volt_in"@) == Some(UsageType::VoltageIn),
        resolve("voltage_in"@) == Some(UsageType::VoltageIn),
        resolve("vout"@) == Some(UsageType::VoltageOut),
        resolve("volt_out"@) == Some(UsageType::VoltageOut),
        resolve("voltage_out"@) == Some(UsageType::VoltageOut),
        resolve("cout"@) == Some(UsageType::CurrentOut),
        resolve("cur_out"@) == Some(UsageType::CurrentOut),
        resolve("current_out"@) == Some(UsageType::CurrentOut),
        resolve("pwr"@) == Some(UsageType::Power),
        resolve("power"@) == Some(UsageType::Power),
{
    reveal_strlit("vin");
    reveal_strlit("volt_in");
    reveal_strlit("voltage_in");
    reveal_strlit("vout");
    reveal_strlit("volt_out");
    reveal_strlit("voltage_out");
    reveal_strlit("cout");
    reveal_strlit("cur_out");
    reveal_strlit("current_out");
    reveal_strlit("pwr");
    reveal_strlit("power");
    assert("vin"@.len() == 3 && "volt_in"@.len() == 7 && "voltage_in"@.len() == 10);
    assert("vout"@.len() == 4 && "volt_out"@.len() == 8 && "voltage_out"@.len() == 11);
    assert("cout"@.len() == 4 && "cur_out"@.len() == 7 && "current_out"@.len() == 11);
    assert("pwr"@.len() == 3 && "power"@.len() == 5);
    assert("vin"@[0] == 'v' && "volt_in"@[0] == 'v' && "vout"@[0] == 'v' && "voltage_out"@[0]
        == 'v');
    assert("cout"@[0] == 'c' && "cur_out"@[0] == 'c' && "current_out"@[0] == 'c');
    assert("pwr"@[0] == 'p');
}

/// Every measurement but `Power` has a name, and `Power` has none.
pub proof fn lemma_variable_name_total(kind: UsageType)
    ensures
        kind != UsageType::Power ==> variable_name(kind).len() > 0,
        kind == UsageType::Power ==> variable_name(kind).len() == 0,
{
    reveal_strlit("input.voltage");
    reveal_strlit("output.voltage");
    reveal_strlit("output.current");
}

/// No two measurements share a variable name.
pub proof fn lemma_variable_name_injective(a: UsageType, b: UsageType)
    requires
        variable_name(a) == variable_name(b),
    ensures
        a == b,
{
    reveal_strlit("input.voltage");
    reveal_strlit("output.voltage");
    reveal_strlit("output.current");
    if a != b {
        let x = variable_name(a);
        let y = variable_name(b);
        assert(x.len() != y.len() || x[0] != y[0] || x[7] != y[7]);
    }
}

} // verus!
