use vstd::prelude::*;

verus! {

/// `std::path::PathBuf`, carried through the library as an opaque value.
#[verifier::external_type_specification]
#[verifier::external_body]
pub struct ExPathBuf(std::path::PathBuf);

/// The HTML judge's settings, read from the environment.
pub struct Config {
    pub amqp_url: String,
    pub id: String,
    pub html_queue_name: String,
    pub database_url: String,
    pub width: u32,
    pub height: u32,
    pub s3_dir: std::path::PathBuf,
    pub s3_bucket: String,
    pub s3_max_retry_count: usize,
}

/// The broker address used when none is configured.
pub fn default_amqp_url() -> (res: String)
    ensures
        res@ == "amqp://127.0.0.1:5672/%2f"@,
{
    "amqp://127.0.0.1:5672/%2f".to_owned()
}

} // verus!
