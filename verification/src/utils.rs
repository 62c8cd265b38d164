//! Terminal styling helpers for the controller's textual output.
use vstd::prelude::*;
use vstd::string::StringExecFns;

verus! {

/// ANSI-escape styling of a string: each method wraps the text in the
/// corresponding colour or attribute code and a reset code.
pub trait StyledString {
    fn black(&self) -> String;

    fn red(&self) -> String;

    fn green(&self) -> String;

    fn yellow(&self) -> String;

    fn blue(&self) -> String;

    fn magenta(&self) -> String;

    fn cyan(&self) -> String;

    fn white(&self) -> String;

    fn bold(&self) -> String;

    fn underline(&self) -> String;

    fn normal(&self) -> String;

    fn bright_red(&self) -> String;
}

fn wrap(prefix: &str, body: &str) -> (r: String)
    ensures
        r@ == prefix@ + body@ + "\u{1b}[0m"@,
{
    let mut s = String::from_str(prefix);
    s.append(body);
    s.append("\u{1b}[0m");
    s
}

impl StyledString for str {
    fn black(&self) -> (r: String)
        ensures
            r@ == "\u{1b}[30m"@ + self@ + "\u{1b}[0m"@,
    {
        wrap("\u{1b}[30m", self)
    }

    fn red(&self) -> (r: String)
        ensures
            r@ == "\u{1b}[31m"@ + self@ + "\u{1b}[0m"@,
    {
        wrap("\u{1b}[31m", self)
    }

    fn green(&self) -> (r: String)
        ensures
            r@ == "\u{1b}[32m"@ + self@ + "\u{1b}[0m"@,
    {
        wrap("\u{1b}[32m", self)
    }

    fn yellow(&self) -> (r: String)
        ensures
            r@ == "\u{1b}[33m"@ + self@ + "\u{1b}[0m"@,
    {
        wrap("\u{1b}[33m", self)
    }

    fn blue(&self) -> (r: String)
        ensures
            r@ == "\u{1b}[34m"@ + self@ + "\u{1b}[0m"@,
    {
        wrap("\u{1b}[34m", self)
    }

    fn magenta(&self) -> (r: String)
        ensures
            r@ == "\u{1b}[35m"@ + self@ + "\u{1b}[0m"@,
    {
        wrap("\u{1b}[35m", self)
    }

    fn cyan(&self) -> (r: String)
        ensures
            r@ == "\u{1b}[36m"@ + self@ + "\u{1b}[0m"@,
    {
        wrap("\u{1b}[36m", self)
    }

    fn white(&self) -> (r: String)
        ensures
            r@ == "\u{1b}[37m"@ + self@ + "\u{1b}[0m"@,
    {
        wrap("\u{1b}[37m", self)
    }

    fn bold(&self) -> (r: String)
        ensures
            r@ == "\u{1b}[1m"@ + self@ + "\u{1b}[0m"@,
    {
        wrap("\u{1b}[1m", self)
    }

    fn underline(&self) -> (r: String)
        ensures
            r@ == "\u{1b}[4m"@ + self@ + "\u{1b}[0m"@,
    {
        wrap("\u{1b}[4m", self)
    }

    fn normal(&self) -> (r: String)
        ensures
            r@ == "\u{1b}[0m"@ + self@ + "\u{1b}[0m"@,
    {
        wrap("\u{1b}[0m", self)
    }

    fn bright_red(&self) -> (r: String)
        ensures
            r@ == "\u{1b}[91m"@ + self@ + "\u{1b}[0m"@,
    {
        wrap("\u{1b}[91m", self)
    }
}

} // verus!
