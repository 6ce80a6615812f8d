//! Failures of the object storage that holds the images of the items, and
//! the names under which the images are kept.

use vstd::prelude::*;

verus! {

/// Why an image could not be stored.
#[derive(Debug, PartialEq, Eq)]
pub enum AWSError {
    AuthenticationError(String),
    BucketAccessError(String),
    UploadError(String),
    ConfigurationError(String),
}

impl AWSError {
    /// The failure in words: what failed, a colon and a blank, the detail.
    pub open spec fn text(self) -> Seq<char> {
        match self {
            AWSError::AuthenticationError(detail) => "Authentication Error: "@ + detail@,
            AWSError::BucketAccessError(detail) => "Bucket Access Error: "@ + detail@,
            AWSError::UploadError(detail) => "Upload Error: "@ + detail@,
            AWSError::ConfigurationError(detail) => "Configuration Error: "@ + detail@,
        }
    }

    pub fn to_string(&self) -> (text: String)
        ensures
            text@ == self.text(),
    {
        match self {
            AWSError::AuthenticationError(detail) => String::from_str(
                "Authentication Error: ",
            ).concat(detail.as_str()),
            AWSError::BucketAccessError(detail) => String::from_str("Bucket Access Error: ").concat(
                detail.as_str(),
            ),
            AWSError::UploadError(detail) => String::from_str("Upload Error: ").concat(
                detail.as_str(),
            ),
            AWSError::ConfigurationError(detail) => String::from_str(
                "Configuration Error: ",
            ).concat(detail.as_str()),
        }
    }
}

/// The character of a decimal digit.
pub open spec fn digit(d: nat) -> char {
    if d == 0 {
        '0'
    } else if d == 1 {
        '1'
    } else if d == 2 {
        '2'
    } else if d == 3 {
        '3'
    } else if d == 4 {
        '4'
    } else if d == 5 {
        '5'
    } else if d == 6 {
        '6'
    } else if d == 7 {
        '7'
    } else if d == 8 {
        '8'
    } else {
        '9'
    }
}

/// A number in decimal digits, without leading zeros.
pub open spec fn decimal_of(n: nat) -> Seq<char>
    decreases n,
{
    if n < 10 {
        seq![digit(n)]
    } else {
        decimal_of(n / 10).push(digit(n % 10))
    }
}

fn digit_text(d: usize) -> (text: &'static str)
    requires
        d < 10,
    ensures
        text@ == seq![digit(d as nat)],
{
    proof {
        reveal_strlit("0");
        reveal_strlit("1");
        reveal_strlit("2");
        reveal_strlit("3");
        reveal_strlit("4");
        reveal_strlit("5");
        reveal_strlit("6");
        reveal_strlit("7");
        reveal_strlit("8");
        reveal_strlit("9");
    }
    let text = if d == 0 {
        "0"
    } else if d == 1 {
        "1"
    } else if d == 2 {
        "2"
    } else if d == 3 {
        "3"
    } else if d == 4 {
        "4"
    } else if d == 5 {
        "5"
    } else if d == 6 {
        "6"
    } else if d == 7 {
        "7"
    } else if d == 8 {
        "8"
    } else {
        "9"
    };
    assert(text@ =~= seq![digit(d as nat)]);
    text
}

/// Writes a number in decimal digits.
pub fn decimal(n: usize) -> (text: String)
    ensures
        text@ == decimal_of(n as nat),
    decreases n,
{
    if n < 10 {
        String::from_str(digit_text(n))
    } else {
        let mut text = decimal(n / 10);
        text.append(digit_text(n % 10));
        assert(text@ =~= decimal_of((n / 10) as nat).push(digit((n % 10) as nat)));
        text
    }
}

/// The name under which the image with this number is kept: the item as
/// folder, then the item, an underscore, the number and the ending.
pub open spec fn object_key_of(item_id: Seq<char>, index: nat) -> Seq<char> {
    item_id + "/"@ + item_id + "_"@ + decimal_of(index) + ".jpg"@
}

pub fn object_key(item_id: &str, index: usize) -> (key: String)
    ensures
        key@ == object_key_of(item_id@, index as nat),
{
    let mut key = String::from_str(item_id);
    key.append("/");
    key.append(item_id);
    key.append("_");
    let number = decimal(index);
    key.append(number.as_str());
    key.append(".jpg");
    key
}

/// The region that stands in an address where none is set.
pub open spec fn region_or_default(region: Option<Seq<char>>) -> Seq<char> {
    match region {
        Some(region) => region,
        None => "unknown-region"@,
    }
}

/// The web address of an object of a bucket.
pub open spec fn object_url_of(bucket: Seq<char>, region: Option<Seq<char>>, key: Seq<char>) -> Seq<
    char,
> {
    "https://"@ + bucket + ".s3."@ + region_or_default(region) + ".amazonaws.com/"@ + key
}

pub fn object_url(bucket: &str, region: Option<&str>, key: &str) -> (url: String)
    ensures
        url@ == object_url_of(
            bucket@,
            match region {
                Some(region) => Some(region@),
                None => None,
            },
            key@,
        ),
{
    let mut url = String::from_str("https://");
    url.append(bucket);
    url.append(".s3.");
    match region {
        Some(region) => url.append(region),
        None => url.append("unknown-region"),
    }
    url.append(".amazonaws.com/");
    url.append(key);
    url
}

} // verus!
