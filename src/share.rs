//! The computing part of sharing a result: the submission form and the reading
//! of the answer.
use vstd::prelude::*;
use crate::error::SpeedtestError;
use crate::speedtest::Speedtest;
use crate::types::SpeedtestResults;
use crate::utils::{decimal, push_decimal, same_text};

verus! {

/// The MD5 digest of `data`.
pub uninterp spec fn md5_digest_of(data: Seq<u8>) -> Seq<u8>;

/// The name-value pairs that an `application/x-www-form-urlencoded` text holds,
/// percent-decoded, in order.
pub uninterp spec fn form_pairs_of(input: Seq<u8>) -> Seq<(Seq<char>, Seq<char>)>;

/// Relies on `md5::compute`: the 16 bytes of the digest of `data`.
#[verifier::external_body]
fn md5_digest(data: &[u8]) -> (r: Vec<u8>)
    ensures
        r@ == md5_digest_of(data@),
        r@.len() == 16,
{
    md5::compute(data).0.to_vec()
}

/// The text of each pair.
pub open spec fn pair_views(p: Seq<(String, String)>) -> Seq<(Seq<char>, Seq<char>)> {
    p.map_values(|x: (String, String)| (x.0@, x.1@))
}

/// Relies on `url::form_urlencoded::parse`: the decoded pairs of `input`, in order.
#[verifier::external_body]
fn form_pairs(input: &[u8]) -> (r: Vec<(String, String)>)
    ensures
        pair_views(r@) == form_pairs_of(input@),
{
    url::form_urlencoded::parse(input).into_owned().collect()
}

/// The lowercase hexadecimal digit of `d`.
pub open spec fn hex_digit(d: nat) -> char {
    if d < 10 {
        crate::utils::digit_char(d)
    } else if d == 10 {
        'a'
    } else if d == 11 {
        'b'
    } else if d == 12 {
        'c'
    } else if d == 13 {
        'd'
    } else if d == 14 {
        'e'
    } else {
        'f'
    }
}

/// Each byte as two lowercase hexadecimal digits, as `{:02x}` writes it.
pub open spec fn hex_of(b: Seq<u8>) -> Seq<char>
    decreases b.len(),
{
    if b.len() == 0 {
        seq![]
    } else {
        hex_of(b.drop_last()) + seq![hex_digit(b.last() as nat / 16), hex_digit(b.last() as nat % 16)]
    }
}

fn hex_digit_str(d: u8) -> (r: &'static str)
    requires
        d < 16,
    ensures
        r@ == seq![hex_digit(d as nat)],
{
    proof {
        reveal_strlit("0");
        reveal_strlit("1");
        reveal_strlit("2");
        reveal_strlit("3");
        reveal_strlit("4");
        reveal_strlit("5");
        reveal_strlit("6");
        reveal_strlit("7");
        reveal_strlit("8");
        reveal_strlit("9");
        reveal_strlit("a");
        reveal_strlit("b");
        reveal_strlit("c");
        reveal_strlit("d");
        reveal_strlit("e");
        reveal_strlit("f");
    }
    let digits = [
        "0", "1", "2", "3", "4", "5", "6", "7", "8", "9", "a", "b", "c", "d", "e", "f",
    ];
    assert(digits@[d as int]@ == seq![hex_digit(d as nat)]);
    digits[d as usize]
}

/// Appends `b` in lowercase hexadecimal to `out`.
pub fn push_hex(out: &mut String, b: &Vec<u8>)
    ensures
        final(out)@ == old(out)@ + hex_of(b@),
{
    let mut i: usize = 0;
    while i < b.len()
        invariant
            i <= b.len(),
            out@ == old(out)@ + hex_of(b@.take(i as int)),
        decreases b.len() - i,
    {
        let x = b[i];
        out.append(hex_digit_str(x / 16));
        out.append(hex_digit_str(x % 16));
        assert(b@.take(i + 1).drop_last() =~= b@.take(i as int));
        assert(out@ =~= old(out)@ + hex_of(b@.take(i + 1)));
        i = i + 1;
    }
    assert(b@.take(b.len() as int) =~= b@);
}

/// `n / 1000` rounded to the nearest integer, halves up.
pub open spec fn thousandths_rounded(n: nat) -> nat {
    if n % 1000 >= 500 {
        n / 1000 + 1
    } else {
        n / 1000
    }
}

fn round_thousandths(n: u64) -> (r: u64)
    ensures
        r as nat == thousandths_rounded(n as nat),
{
    if n % 1000 >= 500 {
        n / 1000 + 1
    } else {
        n / 1000
    }
}

/// The text whose digest authenticates a submission.
pub open spec fn share_hash_input(ping: nat, upload: nat, download: nat) -> Seq<char> {
    decimal(ping) + "-"@ + decimal(upload) + "-"@ + decimal(download) + "-297aae72"@
}

/// The submission form of `r`: ping in milliseconds and speeds in kilobits per
/// second, each rounded, authenticated by the hexadecimal digest `hash`.
pub open spec fn share_form_of(r: SpeedtestResults, hash: Seq<char>) -> Seq<char> {
    let ping = decimal(thousandths_rounded(r.ping as nat));
    let down = decimal(thousandths_rounded(r.download as nat));
    let up = decimal(thousandths_rounded(r.upload as nat));
    let id = decimal(r.server.id as nat);
    "recommendedserverid="@ + id + "&ping="@ + ping + "&screenresolution=&promo=&download="@
        + down + "&screendpi=&upload="@ + up + "&testmethod=http&hash="@ + hash
        + "&touchscreen=none&startmode=pingselect&accuracy=1&bytesreceived="@ + decimal(
        r.bytes_received as nat,
    ) + "&bytessent="@ + decimal(r.bytes_sent as nat) + "&serverid="@ + id
}

/// The digest text of a submission of the given rounded figures.
pub open spec fn share_hash_of(ping: nat, upload: nat, download: nat) -> Seq<char> {
    hex_of(md5_digest_of(vstd::utf8::encode_utf8(share_hash_input(ping, upload, download))))
}

/// The value of the last pair named `key`, as a map built from the pairs keeps it.
pub open spec fn last_value(pairs: Seq<(Seq<char>, Seq<char>)>, key: Seq<char>) -> Option<
    Seq<char>,
>
    decreases pairs.len(),
{
    if pairs.len() == 0 {
        None
    } else if pairs.last().0 == key {
        Some(pairs.last().1)
    } else {
        last_value(pairs.drop_last(), key)
    }
}

/// The URL of the image of a shared result with id `id`.
pub open spec fn share_url_of(id: Seq<char>) -> Seq<char> {
    "http://www.speedtest.net/result/"@ + id + ".png"@
}

/// The share URL that the answer's pairs name: the image of the result whose id
/// is the last `resultid` value; `ShareResultsSubmitFailure` where none is given.
pub fn share_url_from_pairs(pairs: &Vec<(String, String)>) -> (r: Result<String, SpeedtestError>)
    ensures
        last_value(pair_views(pairs@), "resultid"@) matches Some(id) ==> r is Ok && r->Ok_0@
            == share_url_of(id),
        last_value(pair_views(pairs@), "resultid"@) is None ==> (r matches Err(
            SpeedtestError::ShareResultsSubmitFailure(_),
        )),
{
    let ghost pv = pair_views(pairs@);
    let mut i: usize = pairs.len();
    assert(pv.take(i as int) =~= pv);
    while i > 0
        invariant
            i <= pairs@.len(),
            pv == pair_views(pairs@),
            last_value(pv, "resultid"@) == last_value(pv.take(i as int), "resultid"@),
        decreases i,
    {
        let (k, v) = &pairs[i - 1];
        assert(pv.take(i as int).drop_last() =~= pv.take(i - 1));
        if same_text(k.as_str(), "resultid") {
            let mut url = String::from_str("http://www.speedtest.net/result/");
            url.append(v.as_str());
            url.append(".png");
            return Ok(url);
        }
        i = i - 1;
    }
    Err(SpeedtestError::ShareResultsSubmitFailure(String::from_str("No result ID in response")))
}

/// The submission form of `results` authenticated by the MD5 digest `digest`
/// of its figures; see `share_form_of`.
pub fn share_form_with_digest(results: &SpeedtestResults, digest: &Vec<u8>) -> (r: String)
    ensures
        r@ == share_form_of(*results, hex_of(digest@)),
{
    let ping = round_thousandths(results.ping);
    let down = round_thousandths(results.download);
    let up = round_thousandths(results.upload);
    let mut hash = String::new();
    push_hex(&mut hash, digest);
    let mut f = String::from_str("recommendedserverid=");
    push_decimal(&mut f, results.server.id as u64);
    f.append("&ping=");
    push_decimal(&mut f, ping);
    f.append("&screenresolution=&promo=&download=");
    push_decimal(&mut f, down);
    f.append("&screendpi=&upload=");
    push_decimal(&mut f, up);
    f.append("&testmethod=http&hash=");
    f.append(hash.as_str());
    f.append("&touchscreen=none&startmode=pingselect&accuracy=1&bytesreceived=");
    push_decimal(&mut f, results.bytes_received);
    f.append("&bytessent=");
    push_decimal(&mut f, results.bytes_sent);
    f.append("&serverid=");
    push_decimal(&mut f, results.server.id as u64);
    f
}

impl Speedtest {
    /// The form that submits the session's results for sharing.
    pub fn share_form(&self) -> (r: String)
        ensures
            r@ == share_form_of(
                self.results,
                share_hash_of(
                    thousandths_rounded(self.results.ping as nat),
                    thousandths_rounded(self.results.upload as nat),
                    thousandths_rounded(self.results.download as nat),
                ),
            ),
    {
        let ping = round_thousandths(self.results.ping);
        let down = round_thousandths(self.results.download);
        let up = round_thousandths(self.results.upload);
        let mut hash_input = String::new();
        push_decimal(&mut hash_input, ping);
        hash_input.append("-");
        push_decimal(&mut hash_input, up);
        hash_input.append("-");
        push_decimal(&mut hash_input, down);
        hash_input.append("-297aae72");
        let digest = md5_digest(hash_input.as_str().as_bytes());
        share_form_with_digest(&self.results, &digest)
    }

    /// Reads the answer to a share submission and keeps the share URL it names;
    /// see `share_url_from_pairs`. A failure leaves the session as it is.
    pub fn record_share(&mut self, answer: &str) -> (r: Result<String, SpeedtestError>)
        ensures
            ({
                let id = last_value(pair_views_of_answer(answer@), "resultid"@);
                &&& id matches Some(v) ==> r is Ok && r->Ok_0@ == share_url_of(v)
                    && (final(self).results.share matches Some(s) && s@ == r->Ok_0@)
                &&& id is None ==> (r matches Err(SpeedtestError::ShareResultsSubmitFailure(_)))
                    && *final(self) == *old(self)
            }),
            final(self).config == old(self).config,
            final(self).best == old(self).best,
    {
        let pairs = form_pairs(answer.as_bytes());
        match share_url_from_pairs(&pairs) {
            Ok(url) => {
                self.results.share = Some(url.clone());
                Ok(url)
            },
            Err(e) => Err(e),
        }
    }
}

/// The pairs of an answer's text.
pub open spec fn pair_views_of_answer(answer: Seq<char>) -> Seq<(Seq<char>, Seq<char>)> {
    form_pairs_of(vstd::utf8::encode_utf8(answer))
}

} // verus!
