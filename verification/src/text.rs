//! Small pieces of text that the scaffold writes.

use vstd::prelude::*;

verus! {

/// The decimal digit of `n`, for `n` below ten.
pub open spec fn digit(n: nat) -> Seq<char> {
    if n == 0 {
        "0"@
    } else if n == 1 {
        "1"@
    } else if n == 2 {
        "2"@
    } else if n == 3 {
        "3"@
    } else if n == 4 {
        "4"@
    } else if n == 5 {
        "5"@
    } else if n == 6 {
        "6"@
    } else if n == 7 {
        "7"@
    } else if n == 8 {
        "8"@
    } else {
        "9"@
    }
}

/// The decimal notation of `n`, without leading zeros.
pub open spec fn decimal(n: nat) -> Seq<char>
    decreases n,
{
    if n < 10 {
        digit(n)
    } else {
        decimal(n / 10) + digit(n % 10)
    }
}

fn digit_text(n: u16) -> (text: &'static str)
    requires
        n < 10,
    ensures
        text@ == digit(n as nat),
{
    match n {
        0 => "0",
        1 => "1",
        2 => "2",
        3 => "3",
        4 => "4",
        5 => "5",
        6 => "6",
        7 => "7",
        8 => "8",
        _ => "9",
    }
}

/// Writes a number in decimal notation.
pub fn decimal_text(n: u16) -> (text: String)
    ensures
        text@ == decimal(n as nat),
    decreases n,
{
    let mut text = if n < 10 {
        String::new()
    } else {
        decimal_text(n / 10)
    };
    text.append(digit_text(n % 10));
    proof {
        assert(Seq::<char>::empty() + digit(n as nat) == digit(n as nat));
    }
    text
}

/// The concatenation of all texts, in order.
pub open spec fn concatenation(texts: Seq<Seq<char>>) -> Seq<char>
    decreases texts.len(),
{
    if texts.len() == 0 {
        Seq::empty()
    } else {
        concatenation(texts.drop_last()) + texts.last()
    }
}

/// The texts of a vector of strings.
pub open spec fn texts(strings: Seq<String>) -> Seq<Seq<char>> {
    strings.map_values(|string: String| string@)
}

/// Writes all strings from the index `from` on behind `prefix`.
pub fn append_all(prefix: String, strings: &Vec<String>, from: usize) -> (text: String)
    requires
        from <= strings.len(),
    ensures
        text@ == prefix@ + concatenation(texts(strings@).skip(from as int)),
{
    let ghost start = prefix@;
    let ghost all = texts(strings@).skip(from as int);
    let mut text = prefix;
    let mut i: usize = from;
    proof {
        assert(start + concatenation(all.take(0)) == start);
    }
    while i < strings.len()
        invariant
            from <= i <= strings.len(),
            all == texts(strings@).skip(from as int),
            text@ == start + concatenation(all.take(i - from)),
        decreases strings.len() - i,
    {
        text.append(strings[i].as_str());
        i = i + 1;
        proof {
            let k = i - from;
            assert(all.take(k).drop_last() == all.take(k - 1));
            assert(all.take(k).last() == strings@[i - 1]@);
        }
    }
    proof {
        assert(all.take(i - from) == all);
    }
    text
}

/// The network address of the RPC endpoint that a host serves on a port.
pub open spec fn endpoint(host: Seq<char>, port: u16) -> Seq<char> {
    "http://"@ + host + ":"@ + decimal(port as nat)
}

/// Writes the address of an RPC endpoint.
pub fn endpoint_text(host: &str, port: u16) -> (text: String)
    ensures
        text@ == endpoint(host@, port),
{
    let mut text = "http://".to_string();
    text.append(host);
    text.append(":");
    text.append(decimal_text(port).as_str());
    text
}

/// A text between double quotes.
pub open spec fn quoted(text: Seq<char>) -> Seq<char> {
    "\""@ + text + "\""@
}

/// Puts a text between double quotes. Nothing in it is escaped.
pub fn quoted_text(text: &str) -> (quote: String)
    ensures
        quote@ == quoted(text@),
{
    let mut quote = "\"".to_string();
    quote.append(text);
    quote.append("\"");
    quote
}

/// Writes one text behind another.
pub fn joined(first: &str, second: &str) -> (text: String)
    ensures
        text@ == first@ + second@,
{
    let mut text = first.to_string();
    text.append(second);
    text
}

/// The number that a row of decimal digits reads as.
pub open spec fn number_read(digits: Seq<char>) -> int
    decreases digits.len(),
{
    if digits.len() == 0 {
        0
    } else {
        number_read(digits.drop_last()) * 10 + (digits.last() as u32 - '0' as u32)
    }
}

/// Whether a text is a row of decimal digits.
pub open spec fn all_digits(text: Seq<char>) -> bool {
    forall|i: int| 0 <= i < text.len() ==> '0' <= #[trigger] text[i] <= '9'
}

/// What is written for a number reads as that number. It is a row of digits, and starts with a zero
/// only if it is the zero.
pub proof fn law_decimal_reads_as_the_number(n: nat)
    ensures
        number_read(decimal(n)) == n,
        all_digits(decimal(n)),
        decimal(n).len() > 0,
        decimal(n)[0] == '0' ==> n == 0 && decimal(n).len() == 1,
    decreases n,
{
    lemma_digit_is_one_character(n % 10);
    reveal_with_fuel(number_read, 2);
    if n < 10 {
        lemma_digit_is_one_character(n);
        assert(decimal(n).drop_last() =~= Seq::empty());
    } else {
        law_decimal_reads_as_the_number(n / 10);
        assert(decimal(n).drop_last() =~= decimal(n / 10));
        assert(decimal(n)[0] == decimal(n / 10)[0]);
    }
}

/// A digit is one character, as many behind the zero as it stands for.
proof fn lemma_digit_is_one_character(n: nat)
    requires
        n < 10,
    ensures
        digit(n).len() == 1,
        '0' <= digit(n)[0] <= '9',
        digit(n)[0] as u32 == '0' as u32 + n,
{
    reveal_strlit("0");
    reveal_strlit("1");
    reveal_strlit("2");
    reveal_strlit("3");
    reveal_strlit("4");
    reveal_strlit("5");
    reveal_strlit("6");
    reveal_strlit("7");
    reveal_strlit("8");
    reveal_strlit("9");
}

/// The address of an endpoint is `http://`, the host, a colon and the port in decimal digits.
pub proof fn law_endpoint_names_host_and_port(host: Seq<char>, port: u16)
    ensures
        ({
            let text = endpoint(host, port);
            let n = host.len() as int;
            &&& text.len() > n + 8
            &&& text.take(7) == seq!['h', 't', 't', 'p', ':', '/', '/']
            &&& text.subrange(7, 7 + n) == host
            &&& text[7 + n] == ':'
            &&& all_digits(text.skip(8 + n))
            &&& number_read(text.skip(8 + n)) == port
        }),
{
    reveal_strlit("http://");
    reveal_strlit(":");
    law_decimal_reads_as_the_number(port as nat);
    let text = endpoint(host, port);
    let n = host.len() as int;
    assert(text.take(7) =~= seq!['h', 't', 't', 'p', ':', '/', '/']);
    assert(text.subrange(7, 7 + n) =~= host);
    assert(text.skip(8 + n) =~= decimal(port as nat));
}

/// Two endpoints are the same only if their hosts and ports are.
pub proof fn law_endpoints_differ(host: Seq<char>, port: u16, other: Seq<char>, other_port: u16)
    requires
        endpoint(host, port) == endpoint(other, other_port),
    ensures
        host == other,
        port == other_port,
{
    law_endpoint_names_host_and_port(host, port);
    law_endpoint_names_host_and_port(other, other_port);
    let text = endpoint(host, port);
    let (n, m) = (host.len() as int, other.len() as int);
    if n < m {
        assert(text.skip(8 + n)[m - n - 1] == ':');
    } else if m < n {
        assert(text.skip(8 + m)[n - m - 1] == ':');
    }
}

/// A quoted text is the text with one double quote before it and one behind it.
pub proof fn law_quotes_stand_around_the_text(text: Seq<char>)
    ensures
        quoted(text).len() == text.len() + 2,
        quoted(text)[0] == '"',
        quoted(text).last() == '"',
        quoted(text).subrange(1, text.len() as int + 1) == text,
{
    reveal_strlit("\"");
    assert(quoted(text).subrange(1, text.len() as int + 1) =~= text);
}

/// Nothing written one behind the other is nothing, one text is itself, and of two rows of texts
/// the second one comes behind the first.
pub proof fn law_concatenation_keeps_the_order(
    first: Seq<Seq<char>>,
    second: Seq<Seq<char>>,
    text: Seq<char>,
)
    ensures
        concatenation(Seq::empty()) == Seq::<char>::empty(),
        concatenation(seq![text]) == text,
        concatenation(first + second) == concatenation(first) + concatenation(second),
    decreases second.len(),
{
    reveal_with_fuel(concatenation, 2);
    assert(seq![text].drop_last() =~= Seq::empty());
    assert(concatenation(seq![text]) =~= text);
    if second.len() == 0 {
        assert(first + second =~= first);
        assert(concatenation(first) + concatenation(second) =~= concatenation(first));
    } else {
        law_concatenation_keeps_the_order(first, second.drop_last(), text);
        assert((first + second).drop_last() =~= first + second.drop_last());
        assert(concatenation(first + second) =~= concatenation(first) + concatenation(second));
    }
}

/// The texts of strings are one for each, in order.
pub proof fn law_texts_are_those_of_the_strings(strings: Seq<String>, i: int)
    requires
        0 <= i < strings.len(),
    ensures
        texts(strings).len() == strings.len(),
        texts(strings)[i] == strings[i]@,
{
}

} // verus!
