use vstd::prelude::*;

verus! {

/// Carrier identity. The portal distinguishes accounts of the three national
/// carriers by a two-letter wire code: `"yd"`, `"lt"` and `"dx"`.
#[derive(Debug, Clone, Copy, PartialEq, Eq, Structural)]
pub enum Operator {
    Mobie,
    Unicom,
    Telecom,
}

/// The wire code of an operator, as a character sequence.
pub open spec fn spec_code(op: Operator) -> Seq<char> {
    match op {
        Operator::Mobie => "yd"@,
        Operator::Unicom => "lt"@,
        Operator::Telecom => "dx"@,
    }
}

/// The wire code of an operator, as the bytes that go into a request URL.
pub open spec fn spec_code_bytes(op: Operator) -> Seq<u8> {
    match op {
        Operator::Mobie => seq!['y' as u8, 'd' as u8],
        Operator::Unicom => seq!['l' as u8, 't' as u8],
        Operator::Telecom => seq!['d' as u8, 'x' as u8],
    }
}

/// The operator denoted by a wire code, or `None` for any other string.
pub open spec fn spec_from_code(s: Seq<char>) -> Option<Operator> {
    if s == spec_code(Operator::Mobie) {
        Some(Operator::Mobie)
    } else if s == spec_code(Operator::Unicom) {
        Some(Operator::Unicom)
    } else if s == spec_code(Operator::Telecom) {
        Some(Operator::Telecom)
    } else {
        None
    }
}

impl Operator {
    /// The wire code of this operator: `"yd"`, `"lt"` or `"dx"`.
    pub fn code(&self) -> (r: &'static str)
        ensures
            r@ == spec_code(*self),
    {
        match self {
            Operator::Mobie => "yd",
            Operator::Unicom => "lt",
            Operator::Telecom => "dx",
        }
    }

    /// Parses a wire code back into an operator; any string that is not one
    /// of the three codes is rejected.
    pub fn from_code(s: &str) -> (r: Option<Operator>)
        ensures
            r == spec_from_code(s@),
    {
        proof {
            reveal_strlit("yd");
            reveal_strlit("lt");
            reveal_strlit("dx");
        }
        if s.unicode_len() == 2 {
            let c0 = s.get_char(0);
            let c1 = s.get_char(1);
            if c0 == 'y' && c1 == 'd' {
                proof {
                    assert(s@ =~= "yd"@);
                }
                Some(Operator::Mobie)
            } else if c0 == 'l' && c1 == 't' {
                proof {
                    assert(s@ =~= "lt"@);
                }
                Some(Operator::Unicom)
            } else if c0 == 'd' && c1 == 'x' {
                proof {
                    assert(s@ =~= "dx"@);
                }
                Some(Operator::Telecom)
            } else {
                None
            }
        } else {
            None
        }
    }

    /// The operator offered at a given position of the fixed carrier menu
    /// (mobile, unicom, telecom, in that order).
    pub fn from_menu_index(idx: usize) -> (r: Option<Operator>)
        ensures
            idx == 0 ==> r == Some(Operator::Mobie),
            idx == 1 ==> r == Some(Operator::Unicom),
            idx == 2 ==> r == Some(Operator::Telecom),
            idx >= 3 ==> r is None,
    {
        match idx {
            0 => Some(Operator::Mobie),
            1 => Some(Operator::Unicom),
            2 => Some(Operator::Telecom),
            _ => None,
        }
    }
}

/// Law: the two forms of the wire code agree. The bytes that go into a
/// request URL are exactly the characters of the serialized code.
pub proof fn lemma_code_forms_agree(op: Operator)
    ensures
        spec_code_bytes(op) == Seq::new(spec_code(op).len(), |i: int| spec_code(op)[i] as u8),
{
    reveal_strlit("yd");
    reveal_strlit("lt");
    reveal_strlit("dx");
    assert(spec_code_bytes(op) =~= Seq::new(spec_code(op).len(), |i: int| spec_code(op)[i] as u8));
}

/// Law: the wire code round-trips. Parsing the serialized code of any
/// operator yields that operator back.
pub proof fn lemma_code_round_trip(op: Operator)
    ensures
        spec_from_code(spec_code(op)) == Some(op),
{
    reveal_strlit("yd");
    reveal_strlit("lt");
    reveal_strlit("dx");
    match op {
        Operator::Mobie => {
        }
        Operator::Unicom => {
            assert("lt"@[0] == 'l' && "yd"@[0] == 'y');
            assert("lt"@ != "yd"@);
        }
        Operator::Telecom => {
            assert("dx"@[0] == 'd' && "yd"@[0] == 'y' && "lt"@[0] == 'l');
            assert("dx"@ != "yd"@);
            assert("dx"@ != "lt"@);
        }
    }
}

} // verus!
