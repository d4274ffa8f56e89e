//! The command lines of the services, and what is shown of them.

use crate::decimal::{decimal, format_decimal};
use crate::settings::Ports;
use crate::text::{ends_with, has_suffix, same_text, texts};
use vstd::prelude::*;
use vstd::string::*;

verus! {

/// The port on which the database listens.
pub const MYSQL_PORT: u16 = 3306;

/// The local address with `port`.
pub open spec fn local_address(port: u16) -> Seq<char> {
    "127.0.0.1:"@ + decimal(port as nat)
}

fn address(port: u16) -> (r: String)
    ensures
        r@ == local_address(port),
{
    let mut r = String::from_str("127.0.0.1:");
    let digits = format_decimal(port as u32);
    r.append(digits.as_str());
    r
}

fn option_text(option: &str, value: &str) -> (r: String)
    ensures
        r@ == option@ + value@,
{
    let mut r = String::from_str(option);
    r.append(value);
    r
}

/// The arguments of the script interpreter's built-in web server: listen
/// on `port`, serve `www_dir`.
pub fn php_arguments(port: u16, www_dir: &str) -> (r: Vec<String>)
    ensures
        texts(r@) == seq!["-S"@, local_address(port), "-t"@, www_dir@],
{
    let mut args: Vec<String> = Vec::new();
    args.push(String::from_str("-S"));
    args.push(address(port));
    args.push(String::from_str("-t"));
    args.push(String::from_str(www_dir));
    args
}

/// The arguments of the database server.
pub fn mysql_arguments(basedir: &str, datadir: &str, log_file: &str) -> (r: Vec<String>)
    ensures
        texts(r@) == seq![
            "--basedir="@ + basedir@,
            "--datadir="@ + datadir@,
            "--port=3306"@,
            "--log-error="@ + log_file@,
        ],
{
    let mut args: Vec<String> = Vec::new();
    args.push(option_text("--basedir=", basedir));
    args.push(option_text("--datadir=", datadir));
    args.push(String::from_str("--port=3306"));
    args.push(option_text("--log-error=", log_file));
    assert(texts(args@) =~= seq![
        "--basedir="@ + basedir@,
        "--datadir="@ + datadir@,
        "--port=3306"@,
        "--log-error="@ + log_file@,
    ]);
    args
}

/// The first run of the database: if its data directory holds nothing,
/// the server is run once with these arguments, and to its end, before it
/// is started; if the directory holds anything, it is not.
pub fn mysql_initialization(data_dir_entries: usize, basedir: &str, datadir: &str) -> (r: Option<
    Vec<String>,
>)
    ensures
        data_dir_entries != 0 ==> r is None,
        data_dir_entries == 0 ==> r is Some && texts(r->Some_0@) == seq![
            "--initialize-insecure"@,
            "--basedir="@ + basedir@,
            "--datadir="@ + datadir@,
        ],
{
    if data_dir_entries != 0 {
        return None;
    }
    let mut args: Vec<String> = Vec::new();
    args.push(String::from_str("--initialize-insecure"));
    args.push(option_text("--basedir=", basedir));
    args.push(option_text("--datadir=", datadir));
    assert(texts(args@) =~= seq![
        "--initialize-insecure"@,
        "--basedir="@ + basedir@,
        "--datadir="@ + datadir@,
    ]);
    Some(args)
}

/// Whether a first run that ended with `exit_code` lets the start go on:
/// only a run that ended with 0 does.
pub fn initialization_succeeded(exit_code: Option<i32>) -> (r: bool)
    ensures
        r == (exit_code == Some(0i32)),
{
    match exit_code {
        Some(code) => code == 0,
        None => false,
    }
}

/// What a status report shows as a service's address, for the services
/// that have one. The interpreter's port is the lowest it may have, which
/// the `+` says: it takes the next free port from there.
pub open spec fn connection_info_spec(service: Seq<char>, ports: Ports) -> Option<Seq<char>> {
    if service == "php"@ {
        Some(local_address(ports.php) + "+"@)
    } else if service == "mysql"@ {
        Some(local_address(ports.mysql))
    } else {
        None
    }
}

/// The address to show for a service, if it has one.
pub fn connection_info(service: &str, ports: Ports) -> (r: Option<String>)
    ensures
        match r {
            Some(info) => connection_info_spec(service@, ports) == Some(info@),
            None => connection_info_spec(service@, ports) is None,
        },
{
    if same_text(service, "php") {
        let mut info = address(ports.php);
        info.append("+");
        Some(info)
    } else if same_text(service, "mysql") {
        Some(address(ports.mysql))
    } else {
        None
    }
}

/// The directory of the records, below the launcher's directory.
pub fn pids_dir() -> (r: &'static str)
    ensures
        r@ == "data/pids"@,
{
    "data/pids"
}

/// The directory of the services' output, below the launcher's directory.
pub fn logs_dir() -> (r: &'static str)
    ensures
        r@ == "logs"@,
{
    "logs"
}

/// The directory that the interpreter serves, below the launcher's
/// directory.
pub fn www_dir() -> (r: &'static str)
    ensures
        r@ == "www"@,
{
    "www"
}

/// The database's data directory, below the launcher's directory.
pub fn mysql_data_dir() -> (r: &'static str)
    ensures
        r@ == "data/mysql"@,
{
    "data/mysql"
}

/// The name of the file that holds a service's record.
pub fn pid_file_name(service: &str) -> (r: String)
    ensures
        r@ == service@ + ".pid"@,
{
    let mut r = String::from_str(service);
    r.append(".pid");
    r
}

/// The name of the file that takes a service's output.
pub fn log_file_name(service: &str) -> (r: String)
    ensures
        r@ == service@ + ".log"@,
{
    let mut r = String::from_str(service);
    r.append(".log");
    r
}

/// The service that a record file belongs to: the file's name without
/// `.pid`. Other files are no records.
pub fn service_of_pid_file(file_name: &str) -> (r: Option<String>)
    ensures
        match r {
            Some(service) => file_name@ == service@ + ".pid"@,
            None => !has_suffix(file_name@, ".pid"@),
        },
{
    proof {
        reveal_strlit(".pid");
    }
    if !ends_with(file_name, ".pid") {
        return None;
    }
    let n: usize = file_name.unicode_len();
    let stem = file_name.substring_char(0, n - 4);
    Some(String::from_str(stem))
}

} // verus!
