use vstd::prelude::*;

verus! {

/// The options of one run.
#[derive(Debug)]
pub struct Command {
    /// Print the options before starting.
    pub debug: bool,
    pub protocol: String,
    pub host: String,
    pub port: u16,
    /// The databases to purge; all of the server's when absent.
    pub database: Option<Vec<String>>,
    pub username: String,
    pub password: String,
    /// Go on without asking the operator.
    pub force_yes: bool,
}

pub open spec fn digit_char(d: nat) -> char {
    if d == 0 {
        '0'
    } else if d == 1 {
        '1'
    } else if d == 2 {
        '2'
    } else if d == 3 {
        '3'
    } else if d == 4 {
        '4'
    } else if d == 5 {
        '5'
    } else if d == 6 {
        '6'
    } else if d == 7 {
        '7'
    } else if d == 8 {
        '8'
    } else {
        '9'
    }
}

/// The decimal digits of `n`, most significant first, without leading zeros.
pub open spec fn decimal(n: nat) -> Seq<char>
    decreases n,
{
    if n < 10 {
        seq![digit_char(n)]
    } else {
        decimal(n / 10).push(digit_char(n % 10))
    }
}

/// The server's address: `protocol://host:port`.
pub open spec fn base_url_of(protocol: Seq<char>, host: Seq<char>, port: nat) -> Seq<char> {
    protocol + "://"@ + host + ":"@ + decimal(port)
}

fn digit_str(d: u16) -> (r: &'static str)
    requires
        d < 10,
    ensures
        r@ == seq![digit_char(d as nat)],
{
    if d == 0 {
        proof {
            reveal_strlit("0");
        }
        "0"
    } else if d == 1 {
        proof {
            reveal_strlit("1");
        }
        "1"
    } else if d == 2 {
        proof {
            reveal_strlit("2");
        }
        "2"
    } else if d == 3 {
        proof {
            reveal_strlit("3");
        }
        "3"
    } else if d == 4 {
        proof {
            reveal_strlit("4");
        }
        "4"
    } else if d == 5 {
        proof {
            reveal_strlit("5");
        }
        "5"
    } else if d == 6 {
        proof {
            reveal_strlit("6");
        }
        "6"
    } else if d == 7 {
        proof {
            reveal_strlit("7");
        }
        "7"
    } else if d == 8 {
        proof {
            reveal_strlit("8");
        }
        "8"
    } else {
        proof {
            reveal_strlit("9");
        }
        "9"
    }
}

fn append_decimal(s: &mut String, n: u16)
    ensures
        final(s)@ == old(s)@ + decimal(n as nat),
    decreases n,
{
    if n >= 10 {
        append_decimal(s, n / 10);
    }
    s.append(digit_str(n % 10));
    assert(s@ =~= old(s)@ + decimal(n as nat));
}

impl Command {
    /// The address that every remote call starts with.
    pub fn base_url(&self) -> (r: String)
        ensures
            r@ == base_url_of(self.protocol@, self.host@, self.port as nat),
    {
        let mut s = String::from_str(self.protocol.as_str());
        s.append("://");
        s.append(self.host.as_str());
        s.append(":");
        append_decimal(&mut s, self.port);
        proof {
            assert(s@ =~= base_url_of(self.protocol@, self.host@, self.port as nat));
        }
        s
    }
}

} // verus!
