use vstd::prelude::*;
use vstd::string::StringExecFns;

verus! {

/// Relies on alloc's `String::push`: appends the given character to the end
/// of the string.
pub assume_specification[ String::push ](s: &mut String, ch: char)
    ensures
        final(s)@ == old(s)@.push(ch),
;

/// The characters of the decimal rendering of `n`, most significant digit
/// first, as `{}` formatting prints an unsigned integer.
pub open spec fn dec_chars(n: nat) -> Seq<char>
    decreases n,
{
    if n < 10 {
        seq![((48 + n) as u8) as char]
    } else {
        dec_chars(n / 10).push(((48 + n % 10) as u8) as char)
    }
}

/// Concatenation of sequences associates; having this ambient lets long
/// console transcripts be rebracketed freely.
pub broadcast proof fn lemma_app_assoc<A>(s1: Seq<A>, s2: Seq<A>, s3: Seq<A>)
    ensures
        #[trigger] ((s1 + s2) + s3) == s1 + (s2 + s3),
{
    assert((s1 + s2) + s3 =~= s1 + (s2 + s3));
}

/// The characters under which a byte sequence is echoed or reported on the
/// console: each byte as the character with the same code.
pub open spec fn chars_of_bytes(s: Seq<u8>) -> Seq<char> {
    s.map_values(|b: u8| b as char)
}

/// The characters of the hexadecimal rendering of `n`, with a leading `0x`,
/// as `{:#x}` formatting prints an unsigned integer.
pub open spec fn hex_chars(n: nat) -> Seq<char> {
    "0x"@ + hex_digits(n)
}

pub open spec fn hex_digit_char(d: nat) -> char {
    if d < 10 {
        ((48 + d) as u8) as char
    } else {
        ((87 + d) as u8) as char
    }
}

pub open spec fn hex_digits(n: nat) -> Seq<char>
    decreases n,
{
    if n < 16 {
        seq![hex_digit_char(n)]
    } else {
        hex_digits(n / 16).push(hex_digit_char(n % 16))
    }
}

/// The console transmit endpoint.
///
/// The firmware sees the UART as the stream of characters it has queued for
/// transmission; the register-level transmitter that drains the queue belongs
/// to the board layer, not to this library. The view of a `Uart0` is that
/// queued stream.
pub struct Uart0 {
    base_address: usize,
    tx: String,
}

impl View for Uart0 {
    type V = Seq<char>;

    closed spec fn view(&self) -> Seq<char> {
        self.tx@
    }
}

impl Uart0 {
    pub closed spec fn base(&self) -> usize {
        self.base_address
    }

    pub fn new(base_address: usize) -> (u: Uart0)
        ensures
            u@ == Seq::<char>::empty(),
            u.base() == base_address,
    {
        Uart0 { base_address, tx: String::new() }
    }

    /// Queue a single byte for transmission.
    pub fn putc(&mut self, byte: u8)
        ensures
            final(self)@ == old(self)@.push(byte as char),
            final(self).base() == old(self).base(),
    {
        self.tx.push(byte as char);
    }

    /// Queue a whole string for transmission.
    pub fn write_str(&mut self, s: &str)
        ensures
            final(self)@ == old(self)@ + s@,
            final(self).base() == old(self).base(),
    {
        self.tx.append(s);
    }

    /// Queue the decimal rendering of `n`.
    pub fn write_dec(&mut self, n: u64)
        ensures
            final(self)@ == old(self)@ + dec_chars(n as nat),
            final(self).base() == old(self).base(),
        decreases n,
    {
        if n >= 10 {
            self.write_dec(n / 10);
        }
        let digit: u8 = 48 + (n % 10) as u8;
        self.tx.push(digit as char);
        proof {
            if n < 10 {
                assert(old(self)@ + dec_chars(n as nat) =~= old(self)@.push(digit as char));
            } else {
                assert(old(self)@ + dec_chars(n as nat) =~= (old(self)@ + dec_chars(
                    n as nat / 10,
                )).push(digit as char));
            }
        }
    }

    /// Queue every byte of `bytes`, each echoed as the character with the
    /// same code.
    pub fn write_bytes(&mut self, bytes: &Vec<u8>)
        ensures
            final(self)@ == old(self)@ + chars_of_bytes(bytes@),
            final(self).base() == old(self).base(),
    {
        let n = bytes.len();
        let mut i: usize = 0;
        while i < n
            invariant
                i <= n,
                n == bytes@.len(),
                self@ == old(self)@ + chars_of_bytes(bytes@.take(i as int)),
                self.base() == old(self).base(),
            decreases n - i,
        {
            self.putc(bytes[i]);
            proof {
                assert(chars_of_bytes(bytes@.take(i as int + 1)) =~= chars_of_bytes(
                    bytes@.take(i as int),
                ).push(bytes@[i as int] as char));
            }
            i = i + 1;
        }
        proof {
            assert(bytes@.take(n as int) =~= bytes@);
        }
    }

    /// Queue the hexadecimal rendering of `n`, `0x` first.
    pub fn write_hex(&mut self, n: u64)
        ensures
            final(self)@ == old(self)@ + hex_chars(n as nat),
            final(self).base() == old(self).base(),
    {
        self.write_str("0x");
        self.write_hex_digits(n);
        proof {
            assert(old(self)@ + hex_chars(n as nat) =~= (old(self)@ + "0x"@) + hex_digits(
                n as nat,
            ));
        }
    }

    fn write_hex_digits(&mut self, n: u64)
        ensures
            final(self)@ == old(self)@ + hex_digits(n as nat),
            final(self).base() == old(self).base(),
        decreases n,
    {
        if n >= 16 {
            self.write_hex_digits(n / 16);
        }
        let d: u8 = (n % 16) as u8;
        let digit: u8 = if d < 10 {
            48 + d
        } else {
            87 + d
        };
        self.tx.push(digit as char);
        proof {
            if n < 16 {
                assert(old(self)@ + hex_digits(n as nat) =~= old(self)@.push(digit as char));
            } else {
                assert(old(self)@ + hex_digits(n as nat) =~= (old(self)@ + hex_digits(
                    n as nat / 16,
                )).push(digit as char));
            }
        }
    }

    /// Everything queued for transmission so far.
    pub fn transmitted(&self) -> (r: &String)
        ensures
            r@ == self@,
    {
        &self.tx
    }

    /// Hand the queued stream to the transmitter and start a fresh one.
    pub fn take_transmitted(&mut self) -> (r: String)
        ensures
            r@ == old(self)@,
            final(self)@ == Seq::<char>::empty(),
            final(self).base() == old(self).base(),
    {
        let drained = self.tx.clone();
        self.tx = String::new();
        drained
    }
}

} // verus!
