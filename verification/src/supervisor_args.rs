//! Command-line options of the runtime supervisor: eight options, each given
//! exactly once as `--option VALUE`, in any order.
use vstd::prelude::*;
use vstd::utf8::{decode_utf8, valid_utf8};

use crate::docker_runtime_target::str_equals;
use crate::text::{field_to_string, utf8_of};

verus! {

/// The supervisor's options, as given. Paths keep the raw bytes of the
/// operating system's argument; names are UTF-8 text.
#[derive(Debug, PartialEq, Eq)]
pub struct SupervisorArgs {
    pub docker: Vec<u8>,
    pub runtime_root: Vec<u8>,
    pub image_root: Vec<u8>,
    pub network: String,
    pub instance: String,
    pub control_socket: Vec<u8>,
    pub secret_socket: Vec<u8>,
    pub platform_user: String,
}

#[derive(Debug, Clone, Copy, PartialEq, Eq)]
pub enum SupervisorArgsError {
    UnknownOption,
    MissingValue,
    DuplicateOption,
    MissingOption(&'static str),
    NonUtf8Value(&'static str),
}

/// The options in the order a missing one is reported.
pub open spec fn option_name(slot: int) -> &'static str {
    if slot == 0 {
        "--docker"
    } else if slot == 1 {
        "--runtime-root"
    } else if slot == 2 {
        "--image-root"
    } else if slot == 3 {
        "--network"
    } else if slot == 4 {
        "--instance"
    } else if slot == 5 {
        "--control-socket"
    } else if slot == 6 {
        "--secret-socket"
    } else {
        "--platform-user"
    }
}

/// The slot of an option given as UTF-8 text, if it is one of the eight.
pub open spec fn option_slot(option: Seq<char>) -> Option<int> {
    if option == "--docker"@ {
        Some(0)
    } else if option == "--runtime-root"@ {
        Some(1)
    } else if option == "--image-root"@ {
        Some(2)
    } else if option == "--network"@ {
        Some(3)
    } else if option == "--instance"@ {
        Some(4)
    } else if option == "--control-socket"@ {
        Some(5)
    } else if option == "--secret-socket"@ {
        Some(6)
    } else if option == "--platform-user"@ {
        Some(7)
    } else {
        None
    }
}

/// Whether an option's value must be UTF-8 text: the network, the instance
/// and the platform user.
pub open spec fn is_text_option(slot: int) -> bool {
    slot == 3 || slot == 4 || slot == 7
}

pub open spec fn no_options() -> Seq<Option<Seq<u8>>> {
    seq![None, None, None, None, None, None, None, None]
}

/// The options after the pair that starts at `i`.
pub open spec fn pair_step(
    slots: Seq<Option<Seq<u8>>>,
    arguments: Seq<Seq<u8>>,
    i: int,
) -> Result<Seq<Option<Seq<u8>>>, SupervisorArgsError> {
    let option = arguments[i];
    if !valid_utf8(option) {
        Err(SupervisorArgsError::UnknownOption)
    } else if i + 1 >= arguments.len() {
        Err(SupervisorArgsError::MissingValue)
    } else {
        match option_slot(decode_utf8(option)) {
            None => Err(SupervisorArgsError::UnknownOption),
            Some(slot) => if is_text_option(slot) && !valid_utf8(arguments[i + 1]) {
                Err(SupervisorArgsError::NonUtf8Value(option_name(slot)))
            } else if slots[slot] is Some {
                Err(SupervisorArgsError::DuplicateOption)
            } else {
                Ok(slots.update(slot, Some(arguments[i + 1])))
            },
        }
    }
}

/// The options after the first `pairs` pairs, or the first error.
pub open spec fn options_after(arguments: Seq<Seq<u8>>, pairs: nat) -> Result<
    Seq<Option<Seq<u8>>>,
    SupervisorArgsError,
>
    decreases pairs,
{
    if pairs == 0 {
        Ok(no_options())
    } else {
        match options_after(arguments, (pairs - 1) as nat) {
            Err(e) => Err(e),
            Ok(slots) => pair_step(slots, arguments, 2 * (pairs - 1)),
        }
    }
}

/// The first option that was not given.
pub open spec fn first_missing(slots: Seq<Option<Seq<u8>>>) -> Option<int> {
    if slots[0] is None {
        Some(0)
    } else if slots[1] is None {
        Some(1)
    } else if slots[2] is None {
        Some(2)
    } else if slots[3] is None {
        Some(3)
    } else if slots[4] is None {
        Some(4)
    } else if slots[5] is None {
        Some(5)
    } else if slots[6] is None {
        Some(6)
    } else if slots[7] is None {
        Some(7)
    } else {
        None
    }
}

/// The number of pairs in an argument list, a trailing option counted.
pub open spec fn pair_count(arguments: Seq<Seq<u8>>) -> nat {
    ((arguments.len() + 1) / 2) as nat
}

pub open spec fn args_view(args: SupervisorArgs) -> Seq<Option<Seq<u8>>> {
    seq![
        Some(args.docker@),
        Some(args.runtime_root@),
        Some(args.image_root@),
        Some(utf8_of(args.network@)),
        Some(utf8_of(args.instance@)),
        Some(args.control_socket@),
        Some(args.secret_socket@),
        Some(utf8_of(args.platform_user@)),
    ]
}

pub open spec fn slot_view(slot: Option<Vec<u8>>) -> Option<Seq<u8>> {
    match slot {
        Some(value) => Some(value@),
        None => None,
    }
}

pub open spec fn arguments_view(arguments: Seq<Vec<u8>>) -> Seq<Seq<u8>> {
    arguments.map_values(|a: Vec<u8>| a@)
}

/// An error in the first pairs is the error of the whole list.
proof fn lemma_errors_persist(arguments: Seq<Seq<u8>>, k: nat, m: nat)
    requires
        k <= m,
    ensures
        options_after(arguments, k) is Err ==> options_after(arguments, m) == options_after(
            arguments,
            k,
        ),
    decreases m - k,
{
    if k < m {
        lemma_errors_persist(arguments, k, (m - 1) as nat);
    }
}

/// Stores `value` in an empty slot; a filled slot means the option was
/// given twice.
pub fn set_once<T>(slot: &mut Option<T>, value: T) -> (r: Result<(), SupervisorArgsError>)
    ensures
        *old(slot) is None ==> r is Ok && *final(slot) == Some(value),
        *old(slot) is Some ==> r == Err::<(), _>(SupervisorArgsError::DuplicateOption),
{
    let mut previous = Some(value);
    std::mem::swap(slot, &mut previous);
    if previous.is_some() {
        return Err(SupervisorArgsError::DuplicateOption);
    }
    Ok(())
}

/// Text that must be UTF-8.
fn text_value(value: Vec<u8>, option: &'static str) -> (r: Result<String, SupervisorArgsError>)
    ensures
        valid_utf8(value@) ==> (r matches Ok(text) && utf8_of(text@) == value@),
        !valid_utf8(value@) ==> r == Err::<String, _>(SupervisorArgsError::NonUtf8Value(option)),
{
    match field_to_string(value.as_slice()) {
        Some(text) => Ok(text),
        None => Err(SupervisorArgsError::NonUtf8Value(option)),
    }
}

fn required(slot: Option<Vec<u8>>, option: &'static str) -> (r: Result<Vec<u8>, SupervisorArgsError>)
    ensures
        slot matches Some(value) ==> r == Ok::<Vec<u8>, SupervisorArgsError>(value),
        slot is None ==> r == Err::<Vec<u8>, _>(SupervisorArgsError::MissingOption(option)),
{
    match slot {
        Some(value) => Ok(value),
        None => Err(SupervisorArgsError::MissingOption(option)),
    }
}

/// The text of a value already checked to be UTF-8.
fn known_text(value: Vec<u8>) -> (r: String)
    requires
        valid_utf8(value@),
    ensures
        utf8_of(r@) == value@,
{
    match field_to_string(value.as_slice()) {
        Some(text) => text,
        None => {
            proof {
                assert(false);
            }
            String::new()
        },
    }
}

/// Parses the supervisor's arguments (without the program name).
pub fn parse_args(arguments: Vec<Vec<u8>>) -> (r: Result<SupervisorArgs, SupervisorArgsError>)
    ensures
        match options_after(arguments_view(arguments@), pair_count(arguments_view(arguments@))) {
            Err(e) => r == Err::<SupervisorArgs, _>(e),
            Ok(slots) => match first_missing(slots) {
                Some(slot) => r == Err::<SupervisorArgs, _>(
                    SupervisorArgsError::MissingOption(option_name(slot)),
                ),
                None => r matches Ok(args) && args_view(args) == slots,
            },
        },
{
    let ghost all = arguments_view(arguments@);
    let mut docker: Option<Vec<u8>> = None;
    let mut runtime_root: Option<Vec<u8>> = None;
    let mut image_root: Option<Vec<u8>> = None;
    let mut network: Option<Vec<u8>> = None;
    let mut instance: Option<Vec<u8>> = None;
    let mut control_socket: Option<Vec<u8>> = None;
    let mut secret_socket: Option<Vec<u8>> = None;
    let mut platform_user: Option<Vec<u8>> = None;
    let mut i: usize = 0;
    let mut pairs: usize = 0;
    while i < arguments.len()
        invariant
            all == arguments_view(arguments@),
            all.len() == arguments@.len(),
            i == 2 * pairs,
            i <= arguments@.len(),
            options_after(all, pairs as nat) == Ok::<_, SupervisorArgsError>(
                seq![
                    slot_view(docker),
                    slot_view(runtime_root),
                    slot_view(image_root),
                    slot_view(network),
                    slot_view(instance),
                    slot_view(control_socket),
                    slot_view(secret_socket),
                    slot_view(platform_user),
                ],
            ),
            slot_view(network) matches Some(v) ==> valid_utf8(v),
            slot_view(instance) matches Some(v) ==> valid_utf8(v),
            slot_view(platform_user) matches Some(v) ==> valid_utf8(v),
        decreases arguments@.len() - i,
    {
        let ghost slots = seq![
            slot_view(docker),
            slot_view(runtime_root),
            slot_view(image_root),
            slot_view(network),
            slot_view(instance),
            slot_view(control_socket),
            slot_view(secret_socket),
            slot_view(platform_user),
        ];
        proof {
            assert(all[i as int] == arguments@[i as int]@);
            assert(options_after(all, (pairs + 1) as nat) == pair_step(slots, all, i as int));
            lemma_errors_persist(all, (pairs + 1) as nat, pair_count(all));
        }
        let option = match field_to_string(arguments[i].as_slice()) {
            Some(text) => text,
            None => return Err(SupervisorArgsError::UnknownOption),
        };
        proof {
            vstd::utf8::encode_utf8_decode_utf8(option@);
        }
        if i + 1 >= arguments.len() {
            return Err(SupervisorArgsError::MissingValue);
        }
        let value = vstd::slice::slice_to_vec(arguments[i + 1].as_slice());
        proof {
            assert(all[i + 1] == arguments@[i + 1]@);
        }
        let o = option.as_str();
        if str_equals(o, "--docker") {
            set_once(&mut docker, value)?;
        } else if str_equals(o, "--runtime-root") {
            set_once(&mut runtime_root, value)?;
        } else if str_equals(o, "--image-root") {
            set_once(&mut image_root, value)?;
        } else if str_equals(o, "--network") {
            if field_to_string(value.as_slice()).is_none() {
                return Err(SupervisorArgsError::NonUtf8Value("--network"));
            }
            set_once(&mut network, value)?;
        } else if str_equals(o, "--instance") {
            if field_to_string(value.as_slice()).is_none() {
                return Err(SupervisorArgsError::NonUtf8Value("--instance"));
            }
            set_once(&mut instance, value)?;
        } else if str_equals(o, "--control-socket") {
            set_once(&mut control_socket, value)?;
        } else if str_equals(o, "--secret-socket") {
            set_once(&mut secret_socket, value)?;
        } else if str_equals(o, "--platform-user") {
            if field_to_string(value.as_slice()).is_none() {
                return Err(SupervisorArgsError::NonUtf8Value("--platform-user"));
            }
            set_once(&mut platform_user, value)?;
        } else {
            return Err(SupervisorArgsError::UnknownOption);
        }
        proof {
            assert(seq![
                slot_view(docker),
                slot_view(runtime_root),
                slot_view(image_root),
                slot_view(network),
                slot_view(instance),
                slot_view(control_socket),
                slot_view(secret_socket),
                slot_view(platform_user),
            ] =~= pair_step(slots, all, i as int)->Ok_0);
        }
        i = i + 2;
        pairs = pairs + 1;
    }
    proof {
        assert(pair_count(all) == pairs);
    }
    let docker = required(docker, "--docker")?;
    let runtime_root = required(runtime_root, "--runtime-root")?;
    let image_root = required(image_root, "--image-root")?;
    let network = required(network, "--network")?;
    let instance = required(instance, "--instance")?;
    let control_socket = required(control_socket, "--control-socket")?;
    let secret_socket = required(secret_socket, "--secret-socket")?;
    let platform_user = required(platform_user, "--platform-user")?;
    let args = SupervisorArgs {
        docker,
        runtime_root,
        image_root,
        network: known_text(network),
        instance: known_text(instance),
        control_socket,
        secret_socket,
        platform_user: known_text(platform_user),
    };
    proof {
        let slots = options_after(all, pairs as nat)->Ok_0;
        assert(args_view(args) =~= slots);
    }
    Ok(args)
}

} // verus!
