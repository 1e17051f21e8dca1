use vstd::prelude::*;
use rand::Rng;
use crate::participant::{Info, InfoView, Port, PortView, ports_view};

verus! {

/// What the participant was asked for on its command line.
#[derive(Debug)]
pub struct Options {
    /// the requested role name; empty when none was requested
    pub role: String,
    /// the address of the messaging broker
    pub broker: String,
}

impl Default for Options {
    fn default() -> (res: Options)
        ensures
            res.broker@ == "amqp://localhost//"@,
            res.role@.len() == 0,
    {
        Options { broker: "amqp://localhost//".to_owned(), role: String::new() }
    }
}

/// What `str::to_uppercase` returns for a string: its Unicode upper case.
pub uninterp spec fn uppercase(s: Seq<char>) -> Seq<char>;

/// Calls `str::to_uppercase`; its result is a function of the string alone,
/// named [`uppercase`]. Nothing more is claimed of the Unicode case mapping.
#[verifier::external_body]
fn to_uppercase(s: &str) -> (res: String)
    ensures
        res@ == uppercase(s@),
{
    s.to_uppercase()
}

/// A character of the set that `rand` draws from: `A-Z`, `a-z`, `0-9`.
pub open spec fn is_ascii_alphanumeric(c: char) -> bool {
    ||| ('A' as u32 <= c as u32 && c as u32 <= 'Z' as u32)
    ||| ('a' as u32 <= c as u32 && c as u32 <= 'z' as u32)
    ||| ('0' as u32 <= c as u32 && c as u32 <= '9' as u32)
}

/// A string of `len` characters, each from `A-Z`, `a-z`, `0-9`.
pub open spec fn is_random_suffix(s: Seq<char>, len: nat) -> bool {
    &&& s.len() == len
    &&& forall|i: int| 0 <= i < s.len() ==> is_ascii_alphanumeric(#[trigger] s[i])
}

/// Calls `rand::thread_rng().gen_ascii_chars()` for `len` characters. rand's
/// documentation and source promise characters from `A-Z`, `a-z`, `0-9`;
/// which ones come out is left open. (`thread_rng` panics when the machine
/// gives it no entropy; nothing here rules that out.)
#[verifier::external_body]
fn random_alphanumeric(len: usize) -> (res: String)
    ensures
        is_random_suffix(res@, len as nat),
{
    rand::thread_rng().gen_ascii_chars().take(len).collect()
}

/// The number of random characters in a generated role and id.
pub const RANDOM_SUFFIX_LEN: usize = 5;

/// The queue that a port of a participant with the given role is bound to
/// when it names none: the role, a dot, and the port's name in upper case.
pub open spec fn spec_default_queue(role: Seq<char>, port_name: Seq<char>) -> Seq<char> {
    role + "."@ + uppercase(port_name)
}

/// The role after normalisation: the requested one, else the one the
/// description had, else `msgflo-rust-` and a random suffix.
pub open spec fn normalized_role(current: Seq<char>, requested: Seq<char>, suffix: Seq<char>) -> Seq<char> {
    if requested.len() > 0 {
        requested
    } else if current.len() > 0 {
        current
    } else {
        "msgflo-rust-"@ + suffix
    }
}

/// A port after normalisation: a port with no queue gets the default one.
pub open spec fn normalized_port(p: PortView, role: Seq<char>) -> PortView {
    if p.queue.len() == 0 {
        PortView { id: p.id, queue: spec_default_queue(role, p.id) }
    } else {
        p
    }
}

pub open spec fn normalized_ports(ports: Seq<PortView>, role: Seq<char>) -> Seq<PortView> {
    ports.map_values(|p: PortView| normalized_port(p, role))
}

/// A description after normalisation, given the requested role and the two
/// random suffixes: the role as [`normalized_role`] says, the id made of the
/// role, a dash and the id suffix, each port as [`normalized_port`] says,
/// and everything else as it was.
pub open spec fn normalized_info(
    old: InfoView,
    requested_role: Seq<char>,
    role_suffix: Seq<char>,
    id_suffix: Seq<char>,
) -> InfoView {
    let role = normalized_role(old.role, requested_role, role_suffix);
    InfoView {
        id: role + "-"@ + id_suffix,
        role: role,
        inports: normalized_ports(old.inports, role),
        outports: normalized_ports(old.outports, role),
        ..old
    }
}

/// The queue of a port named `port_name` of a participant with role `role`.
pub fn default_queue(role: String, port_name: String) -> (res: String)
    ensures
        res@ == spec_default_queue(role@, port_name@),
{
    let mut queue = role;
    queue.append(".");
    let upper = to_uppercase(port_name.as_str());
    queue.append(upper.as_str());
    queue
}

fn normalize_port(p: &Port, role: &String) -> (res: Port)
    ensures
        res@ == normalized_port(p@, role@),
{
    let mut res = p.clone();
    if res.queue.as_str().is_empty() {
        res.queue = default_queue(role.clone(), p.id.clone());
    }
    res
}

fn normalize_ports(ports: &Vec<Port>, role: &String) -> (res: Vec<Port>)
    ensures
        ports_view(res@) == normalized_ports(ports_view(ports@), role@),
{
    let mut res: Vec<Port> = Vec::new();
    let mut i: usize = 0;
    while i < ports.len()
        invariant
            i <= ports.len(),
            ports_view(res@) =~= normalized_ports(ports_view(ports@), role@).subrange(0, i as int),
        decreases ports.len() - i,
    {
        let p = normalize_port(&ports[i], role);
        let ghost before = res@;
        res.push(p);
        assert(ports_view(res@) =~= ports_view(before).push(p@));
        assert(ports_view(ports@)[i as int] == ports@[i as int]@);
        i = i + 1;
    }
    assert(normalized_ports(ports_view(ports@), role@).subrange(0, i as int)
        =~= normalized_ports(ports_view(ports@), role@));
    res
}

/// Normalises a description with the random suffixes given: see
/// [`normalized_info`].
pub fn normalize_info_with(old: &Info, options: &Options, role_suffix: &str, id_suffix: &str) -> (res: Info)
    ensures
        res@ == normalized_info(old@, options.role@, role_suffix@, id_suffix@),
{
    let mut new = old.clone();
    if !options.role.as_str().is_empty() {
        new.role = options.role.clone();
    }
    if new.role.as_str().is_empty() {
        let mut role = "msgflo-rust-".to_owned();
        role.append(role_suffix);
        new.role = role;
    }
    let mut id = new.role.clone();
    id.append("-");
    id.append(id_suffix);
    new.id = id;
    new.inports = normalize_ports(&old.inports, &new.role);
    new.outports = normalize_ports(&old.outports, &new.role);
    new
}

/// A string that the random generator returned when asked for a suffix:
/// only a call of the generator shows it, and nothing else produces one.
pub closed spec fn is_drawn(s: String) -> bool {
    call_ensures(random_alphanumeric, (RANDOM_SUFFIX_LEN,), s)
}

/// A drawn suffix has five characters, each from `A-Z`, `a-z`, `0-9`.
pub proof fn lemma_drawn_is_random_suffix(s: String)
    requires
        is_drawn(s),
    ensures
        is_random_suffix(s@, 5),
{
}

/// Normalises a description for running: fills in the role, a fresh id,
/// and the default queue of each port that has none. The generated role's
/// suffix and the id's suffix are strings that the random generator
/// returned for this call (five characters from `A-Z`, `a-z`, `0-9`); the
/// rest is exactly [`normalized_info`].
pub fn normalize_info(old: &Info, options: &Options) -> (res: Info)
    ensures
        exists|role_suffix: Seq<char>, id_suffix: Seq<char>|
            #![trigger normalized_info(old@, options.role@, role_suffix, id_suffix)]
            is_random_suffix(role_suffix, 5) && is_random_suffix(id_suffix, 5)
                && res@ == normalized_info(old@, options.role@, role_suffix, id_suffix),
        exists|role_suffix: String, id_suffix: String|
            #![trigger is_drawn(role_suffix), is_drawn(id_suffix)]
            is_drawn(role_suffix) && is_drawn(id_suffix)
                && res@ == normalized_info(old@, options.role@, role_suffix@, id_suffix@),
{
    // called through a function value, so that the call's result is
    // known to be one the generator returned (`call_ensures`)
    let draw = random_alphanumeric;
    let role_suffix = draw(RANDOM_SUFFIX_LEN);
    let id_suffix = draw(RANDOM_SUFFIX_LEN);
    assert(is_drawn(role_suffix) && is_drawn(id_suffix));
    let res = normalize_info_with(old, options, role_suffix.as_str(), id_suffix.as_str());
    assert(res@ == normalized_info(old@, options.role@, role_suffix@, id_suffix@));
    res
}

/// A description that a participant can run with: it has a role, and every
/// port is bound to a queue.
pub open spec fn is_runnable(info: InfoView) -> bool {
    &&& info.role.len() > 0
    &&& forall|k: int| 0 <= k < info.inports.len() ==> #[trigger] info.inports[k].queue.len() > 0
    &&& forall|k: int| 0 <= k < info.outports.len() ==> #[trigger] info.outports[k].queue.len() > 0
}

proof fn lemma_ports_bound(ports: Seq<PortView>, role: Seq<char>)
    ensures
        forall|k: int| 0 <= k < ports.len() ==>
            #[trigger] normalized_ports(ports, role)[k].queue.len() > 0,
{
    reveal_strlit(".");
    assert forall|k: int| 0 <= k < ports.len() implies
        #[trigger] normalized_ports(ports, role)[k].queue.len() > 0 by {
        assert(normalized_ports(ports, role)[k] == normalized_port(ports[k], role));
    }
}

/// Whatever it is given, normalisation yields a runnable description: the
/// role is not empty and every port is bound to a queue.
pub proof fn lemma_normalized_is_runnable(
    old: InfoView,
    requested_role: Seq<char>,
    role_suffix: Seq<char>,
    id_suffix: Seq<char>,
)
    ensures
        is_runnable(normalized_info(old, requested_role, role_suffix, id_suffix)),
{
    reveal_strlit("msgflo-rust-");
    let role = normalized_role(old.role, requested_role, role_suffix);
    lemma_ports_bound(old.inports, role);
    lemma_ports_bound(old.outports, role);
}

/// Normalisation keeps the component, label, icon and the ports in their
/// order with their names; a port that had a queue keeps it; a requested
/// role wins, and a description's own role is kept when none is requested;
/// the id is the role, a dash and the id suffix.
pub proof fn lemma_normalize_keeps(
    old: InfoView,
    requested_role: Seq<char>,
    role_suffix: Seq<char>,
    id_suffix: Seq<char>,
)
    ensures
        ({
            let new = normalized_info(old, requested_role, role_suffix, id_suffix);
            &&& new.component == old.component
            &&& new.label == old.label
            &&& new.icon == old.icon
            &&& requested_role.len() > 0 ==> new.role == requested_role
            &&& requested_role.len() == 0 && old.role.len() > 0 ==> new.role == old.role
            &&& new.id == new.role + "-"@ + id_suffix
            &&& new.inports.len() == old.inports.len()
            &&& new.outports.len() == old.outports.len()
            &&& forall|k: int| 0 <= k < old.inports.len() ==> {
                &&& (#[trigger] new.inports[k]).id == old.inports[k].id
                &&& old.inports[k].queue.len() > 0 ==> new.inports[k].queue == old.inports[k].queue
            }
            &&& forall|k: int| 0 <= k < old.outports.len() ==> {
                &&& (#[trigger] new.outports[k]).id == old.outports[k].id
                &&& old.outports[k].queue.len() > 0 ==> new.outports[k].queue == old.outports[k].queue
            }
        }),
{
}

/// A port that the builder added, with no queue, is bound after
/// normalisation to the default queue of the normalised role.
pub proof fn lemma_built_ports_get_default_queue(
    built: InfoView,
    inport: Seq<char>,
    outport: Seq<char>,
    requested_role: Seq<char>,
    role_suffix: Seq<char>,
    id_suffix: Seq<char>,
)
    ensures
        ({
            let new = normalized_info(
                built.with_inport(inport).with_outport(outport),
                requested_role,
                role_suffix,
                id_suffix,
            );
            &&& new.inports.last() == PortView { id: inport, queue: spec_default_queue(new.role, inport) }
            &&& new.outports.last() == PortView { id: outport, queue: spec_default_queue(new.role, outport) }
        }),
{
}

proof fn lemma_ports_stable(ports: Seq<PortView>, role: Seq<char>)
    ensures
        normalized_ports(normalized_ports(ports, role), role) == normalized_ports(ports, role),
{
    lemma_ports_bound(ports, role);
    let once = normalized_ports(ports, role);
    assert(normalized_ports(once, role) =~= once);
}

/// Normalising a normalised description again changes nothing but the id:
/// the role and every port stay as they are.
pub proof fn lemma_normalize_twice(
    old: InfoView,
    requested_role: Seq<char>,
    role_suffix: Seq<char>,
    id_suffix: Seq<char>,
    role_suffix2: Seq<char>,
    id_suffix2: Seq<char>,
)
    ensures
        normalized_info(
            normalized_info(old, requested_role, role_suffix, id_suffix),
            requested_role,
            role_suffix2,
            id_suffix2,
        ) == normalized_info(old, requested_role, role_suffix, id_suffix2),
{
    let once = normalized_info(old, requested_role, role_suffix, id_suffix);
    lemma_normalized_is_runnable(old, requested_role, role_suffix, id_suffix);
    assert(normalized_role(once.role, requested_role, role_suffix2) == once.role);
    lemma_ports_stable(old.inports, once.role);
    lemma_ports_stable(old.outports, once.role);
}

/// For every role and every port name, of any length, the default queue is
/// the role, then a single dot, then the port name in upper case: the role
/// is its prefix, the dot follows it, and the upper-cased name is the rest.
pub proof fn lemma_default_queue_form(role: Seq<char>, port_name: Seq<char>)
    ensures
        spec_default_queue(role, port_name) == role + "."@ + uppercase(port_name),
        spec_default_queue(role, port_name).len() == role.len() + 1 + uppercase(port_name).len(),
        spec_default_queue(role, port_name).subrange(0, role.len() as int) == role,
        spec_default_queue(role, port_name)[role.len() as int] == '.',
        spec_default_queue(role, port_name).subrange(role.len() + 1int, spec_default_queue(role, port_name).len() as int)
            == uppercase(port_name),
{
    reveal_strlit(".");
    let q = spec_default_queue(role, port_name);
    assert(q.subrange(0, role.len() as int) =~= role);
    assert(q.subrange(role.len() + 1int, q.len() as int) =~= uppercase(port_name));
}

/// The role after normalisation, case by case: a requested role wins; with
/// none requested the description's own role stays; with neither, the role
/// is "msgflo-rust-" followed by the role suffix. Every port that had no
/// queue gets the role, a dot and its name in upper case.
pub proof fn lemma_normalized_role_and_queues(
    old: InfoView,
    requested_role: Seq<char>,
    role_suffix: Seq<char>,
    id_suffix: Seq<char>,
)
    ensures
        ({
            let new = normalized_info(old, requested_role, role_suffix, id_suffix);
            &&& requested_role.len() > 0 ==> new.role == requested_role
            &&& requested_role.len() == 0 && old.role.len() > 0 ==> new.role == old.role
            &&& requested_role.len() == 0 && old.role.len() == 0 ==> new.role == "msgflo-rust-"@ + role_suffix
            &&& new.id == new.role + "-"@ + id_suffix
            &&& forall|k: int| 0 <= k < old.inports.len() && old.inports[k].queue.len() == 0 ==>
                (#[trigger] new.inports[k]).queue == new.role + "."@ + uppercase(old.inports[k].id)
            &&& forall|k: int| 0 <= k < old.outports.len() && old.outports[k].queue.len() == 0 ==>
                (#[trigger] new.outports[k]).queue == new.role + "."@ + uppercase(old.outports[k].id)
        }),
{
}

} // verus!
