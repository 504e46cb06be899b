//! The model catalog and model path logic.
//!
//! Downloading and file probing stay with the caller; everything here is
//! a computation over plain values: which models exist, where a model
//! file lives, how its path is written back into the configuration, and
//! whether a partial download may be resumed.

use vstd::prelude::*;
use vstd::string::*;

use crate::config::{data_dir, base_dir_spec, opt_str_view};
use crate::error::WhsprError;

verus! {

/// One entry of the model catalog.
#[derive(Debug, Clone, Copy)]
pub struct ModelInfo {
    pub name: &'static str,
    pub filename: &'static str,
    pub size: &'static str,
    pub description: &'static str,
}

/// The model catalog, in presentation order.
pub open spec fn spec_models() -> Seq<ModelInfo> {
    seq![
        ModelInfo {
            name: "large-v3-turbo",
            filename: "ggml-large-v3-turbo.bin",
            size: "1.6 GB",
            description: "Best balance of speed and accuracy (recommended)",
        },
        ModelInfo {
            name: "large-v3-turbo-q5_0",
            filename: "ggml-large-v3-turbo-q5_0.bin",
            size: "574 MB",
            description: "Quantized turbo, smaller and slightly less accurate",
        },
        ModelInfo {
            name: "large-v3",
            filename: "ggml-large-v3.bin",
            size: "3.1 GB",
            description: "Most accurate, significantly slower",
        },
        ModelInfo {
            name: "large-v3-q5_0",
            filename: "ggml-large-v3-q5_0.bin",
            size: "1.1 GB",
            description: "Quantized large, good accuracy/size tradeoff",
        },
        ModelInfo {
            name: "medium",
            filename: "ggml-medium.bin",
            size: "1.5 GB",
            description: "Medium model",
        },
        ModelInfo {
            name: "medium.en",
            filename: "ggml-medium.en.bin",
            size: "1.5 GB",
            description: "Medium model, English only",
        },
        ModelInfo {
            name: "small",
            filename: "ggml-small.bin",
            size: "488 MB",
            description: "Small model, fast",
        },
        ModelInfo {
            name: "small.en",
            filename: "ggml-small.en.bin",
            size: "488 MB",
            description: "Small model, English only",
        },
        ModelInfo {
            name: "base",
            filename: "ggml-base.bin",
            size: "148 MB",
            description: "Base model, very fast",
        },
        ModelInfo {
            name: "base.en",
            filename: "ggml-base.en.bin",
            size: "148 MB",
            description: "Base model, English only",
        },
        ModelInfo {
            name: "tiny",
            filename: "ggml-tiny.bin",
            size: "78 MB",
            description: "Tiny model, fastest, least accurate",
        },
        ModelInfo {
            name: "tiny.en",
            filename: "ggml-tiny.en.bin",
            size: "78 MB",
            description: "Tiny model, English only",
        },
    ]
}

/// The model catalog as a vector.
pub fn models() -> (r: Vec<ModelInfo>)
    ensures
        r@ == spec_models(),
{
    let mut r: Vec<ModelInfo> = Vec::new();
    r.push(
        ModelInfo {
            name: "large-v3-turbo",
            filename: "ggml-large-v3-turbo.bin",
            size: "1.6 GB",
            description: "Best balance of speed and accuracy (recommended)",
        },
    );
    r.push(
        ModelInfo {
            name: "large-v3-turbo-q5_0",
            filename: "ggml-large-v3-turbo-q5_0.bin",
            size: "574 MB",
            description: "Quantized turbo, smaller and slightly less accurate",
        },
    );
    r.push(
        ModelInfo {
            name: "large-v3",
            filename: "ggml-large-v3.bin",
            size: "3.1 GB",
            description: "Most accurate, significantly slower",
        },
    );
    r.push(
        ModelInfo {
            name: "large-v3-q5_0",
            filename: "ggml-large-v3-q5_0.bin",
            size: "1.1 GB",
            description: "Quantized large, good accuracy/size tradeoff",
        },
    );
    r.push(
        ModelInfo {
            name: "medium",
            filename: "ggml-medium.bin",
            size: "1.5 GB",
            description: "Medium model",
        },
    );
    r.push(
        ModelInfo {
            name: "medium.en",
            filename: "ggml-medium.en.bin",
            size: "1.5 GB",
            description: "Medium model, English only",
        },
    );
    r.push(
        ModelInfo {
            name: "small",
            filename: "ggml-small.bin",
            size: "488 MB",
            description: "Small model, fast",
        },
    );
    r.push(
        ModelInfo {
            name: "small.en",
            filename: "ggml-small.en.bin",
            size: "488 MB",
            description: "Small model, English only",
        },
    );
    r.push(
        ModelInfo {
            name: "base",
            filename: "ggml-base.bin",
            size: "148 MB",
            description: "Base model, very fast",
        },
    );
    r.push(
        ModelInfo {
            name: "base.en",
            filename: "ggml-base.en.bin",
            size: "148 MB",
            description: "Base model, English only",
        },
    );
    r.push(
        ModelInfo {
            name: "tiny",
            filename: "ggml-tiny.bin",
            size: "78 MB",
            description: "Tiny model, fastest, least accurate",
        },
    );
    r.push(
        ModelInfo {
            name: "tiny.en",
            filename: "ggml-tiny.en.bin",
            size: "78 MB",
            description: "Tiny model, English only",
        },
    );
    proof {
        assert(r@ =~= spec_models());
    }
    r
}

/// Character-wise string equality.
pub fn str_eq(a: &str, b: &str) -> (r: bool)
    ensures
        r == (a@ == b@),
{
    let n = a.unicode_len();
    if n != b.unicode_len() {
        proof {
            assert(a@ != b@) by {
                assert(a@.len() != b@.len());
            }
        }
        return false;
    }
    let mut i: usize = 0;
    while i < n
        invariant
            0 <= i <= n,
            n == a@.len(),
            n == b@.len(),
            forall|j: int| 0 <= j < i ==> a@[j] == b@[j],
        decreases n - i,
    {
        if a.get_char(i) != b.get_char(i) {
            return false;
        }
        i = i + 1;
    }
    proof {
        assert(a@ =~= b@);
    }
    true
}

/// Look a model up by name. Returns the catalog entry whose name matches,
/// and nothing when no entry matches.
pub fn find_model(name: &str) -> (r: Option<ModelInfo>)
    ensures
        r matches Some(m) ==> m.name@ == name@ && spec_models().contains(m),
        r is None ==> forall|i: int|
            0 <= i < spec_models().len() ==> #[trigger] spec_models()[i].name@ != name@,
{
    let all = models();
    let mut i: usize = 0;
    while i < all.len()
        invariant
            0 <= i <= all.len(),
            all@ == spec_models(),
            forall|j: int| 0 <= j < i ==> #[trigger] spec_models()[j].name@ != name@,
        decreases all.len() - i,
    {
        if str_eq(all[i].name, name) {
            proof {
                assert(spec_models()[i as int] == all@[i as int]);
                assert(spec_models().contains(all@[i as int]));
            }
            return Some(all[i]);
        }
        i = i + 1;
    }
    None
}

/// Where a model file lives: the data directory plus the file name.
pub fn model_path(filename: &str, xdg_data_home: Option<&str>, home: Option<&str>) -> (r: String)
    ensures
        r@ == base_dir_spec(opt_str_view(xdg_data_home), opt_str_view(home), "/.local/share"@)
            + "/whspr-rs"@ + seq!['/'] + filename@,
{
    let mut r = data_dir(xdg_data_home, home);
    r.append("/");
    r.append(filename);
    proof {
        reveal_strlit("/");
        assert("/"@ =~= seq!['/']);
    }
    r
}

/// How a path is written in the configuration file: a path under the home
/// directory is abbreviated with a leading tilde, any other path is kept
/// as it is.
pub open spec fn path_for_config_spec(path: Seq<char>, home: Option<Seq<char>>) -> Seq<char> {
    match home {
        Some(h) => {
            if path.len() > h.len() && path.subrange(0, h.len() as int) == h && path[h.len() as int]
                == '/' {
                "~/"@ + path.subrange(h.len() as int + 1, path.len() as int)
            } else if path == h {
                "~/"@
            } else {
                path
            }
        },
        None => path,
    }
}

/// Abbreviate a path under the given home directory with a leading tilde.
pub fn path_for_config(path: &str, home: Option<&str>) -> (r: String)
    ensures
        r@ == path_for_config_spec(path@, opt_str_view(home)),
{
    match home {
        None => path.to_owned(),
        Some(h) => {
            let n = path.unicode_len();
            let hn = h.unicode_len();
            if n > hn && str_eq(path.substring_char(0, hn), h) && path.get_char(hn) == '/' {
                let mut r = String::from_str("~/");
                r.append(path.substring_char(hn + 1, n));
                r
            } else if n == hn && str_eq(path, h) {
                String::from_str("~/")
            } else {
                path.to_owned()
            }
        },
    }
}

/// The model path as it should be recorded in the configuration file.
pub fn model_path_for_config(
    filename: &str,
    xdg_data_home: Option<&str>,
    home: Option<&str>,
) -> (r: String)
    ensures
        r@ == path_for_config_spec(
            base_dir_spec(opt_str_view(xdg_data_home), opt_str_view(home), "/.local/share"@)
                + "/whspr-rs"@ + seq!['/'] + filename@,
            opt_str_view(home),
        ),
{
    let p = model_path(filename, xdg_data_home, home);
    path_for_config(p.as_str(), home)
}

/// A model's listed status: active when it is the configured model, local
/// when its file is present, remote otherwise.
pub fn model_status(is_active: bool, is_local: bool) -> (r: &'static str)
    ensures
        is_active ==> r@ == "active"@,
        !is_active && is_local ==> r@ == "local"@,
        !is_active && !is_local ==> r@ == "remote"@,
{
    if is_active {
        "active"
    } else if is_local {
        "local"
    } else {
        "remote"
    }
}

/// The decimal digit character for a value below ten.
pub open spec fn spec_digit(d: nat) -> char {
    if d == 0 {
        '0'
    } else if d == 1 {
        '1'
    } else if d == 2 {
        '2'
    } else if d == 3 {
        '3'
    } else if d == 4 {
        '4'
    } else if d == 5 {
        '5'
    } else if d == 6 {
        '6'
    } else if d == 7 {
        '7'
    } else if d == 8 {
        '8'
    } else {
        '9'
    }
}

/// The decimal rendering of a natural number, most significant digit
/// first, with no leading zeros except for zero itself.
pub open spec fn spec_decimal(n: nat) -> Seq<char>
    decreases n,
{
    if n < 10 {
        seq![spec_digit(n)]
    } else {
        spec_decimal(n / 10) + seq![spec_digit(n % 10)]
    }
}

/// The one-character string for a decimal digit.
fn digit_str(d: u64) -> (r: &'static str)
    requires
        d < 10,
    ensures
        r@ == seq![spec_digit(d as nat)],
{
    let r: &'static str = if d == 0 {
        "0"
    } else if d == 1 {
        "1"
    } else if d == 2 {
        "2"
    } else if d == 3 {
        "3"
    } else if d == 4 {
        "4"
    } else if d == 5 {
        "5"
    } else if d == 6 {
        "6"
    } else if d == 7 {
        "7"
    } else if d == 8 {
        "8"
    } else {
        "9"
    };
    proof {
        reveal_strlit("0");
        reveal_strlit("1");
        reveal_strlit("2");
        reveal_strlit("3");
        reveal_strlit("4");
        reveal_strlit("5");
        reveal_strlit("6");
        reveal_strlit("7");
        reveal_strlit("8");
        reveal_strlit("9");
        assert(r@ =~= seq![spec_digit(d as nat)]);
    }
    r
}

/// Render a number in decimal.
pub fn u64_to_string(n: u64) -> (r: String)
    ensures
        r@ == spec_decimal(n as nat),
    decreases n,
{
    if n < 10 {
        digit_str(n).to_owned()
    } else {
        let head = u64_to_string(n / 10);
        head.concat(digit_str(n % 10))
    }
}

/// Whether an HTTP status code reports success.
pub open spec fn http_success(status: u16) -> bool {
    200 <= status < 300
}

/// What a resumed download may keep: with a partial file on disk, a
/// Partial Content answer resumes from its length, a plain OK answer
/// restarts from zero, and anything else fails; with no partial file, any
/// success answer starts from zero and anything else fails.
pub fn validated_existing_len(existing_len: u64, status: u16) -> (r: Result<u64, WhsprError>)
    ensures
        existing_len > 0 && status == 206 ==> r == Ok::<u64, WhsprError>(existing_len),
        existing_len > 0 && status == 200 ==> r == Ok::<u64, WhsprError>(0u64),
        existing_len == 0 && http_success(status) ==> r == Ok::<u64, WhsprError>(0u64),
        (if existing_len > 0 {
            status != 206 && status != 200
        } else {
            !http_success(status)
        }) <==> r is Err,
        r matches Err(e) ==> e is Download && e.detail_spec() == "download failed with HTTP "@
            + spec_decimal(status as nat),
{
    if existing_len > 0 {
        if status == 206 {
            Ok(existing_len)
        } else if status == 200 {
            Ok(0)
        } else {
            Err(WhsprError::Download(download_failed_message(status)))
        }
    } else if 200 <= status && status < 300 {
        Ok(0)
    } else {
        Err(WhsprError::Download(download_failed_message(status)))
    }
}

/// The message reported when a download answer is unusable.
fn download_failed_message(status: u16) -> (r: String)
    ensures
        r@ == "download failed with HTTP "@ + spec_decimal(status as nat),
{
    let mut m = String::from_str("download failed with HTTP ");
    m.append(u64_to_string(status as u64).as_str());
    m
}

} // verus!
