use vstd::prelude::*;

verus! {

/// What a port is, as plain values.
pub struct PortView {
    pub id: Seq<char>,
    pub queue: Seq<char>,
}

/// A port of a participant: its name and the message queue it is bound to.
#[derive(Debug, PartialEq, Eq)]
pub struct Port {
    /// port name
    pub id: String,
    /// the associated message queue
    pub queue: String,
}

impl View for Port {
    type V = PortView;

    open spec fn view(&self) -> PortView {
        PortView { id: self.id@, queue: self.queue@ }
    }
}

impl Clone for Port {
    fn clone(&self) -> (res: Self)
        ensures
            res == *self,
    {
        Port { id: self.id.clone(), queue: self.queue.clone() }
    }
}

impl Default for Port {
    fn default() -> (res: Self)
        ensures
            res@.id.len() == 0,
            res@.queue.len() == 0,
    {
        Port { id: String::new(), queue: String::new() }
    }
}


/// The view of an optional string.
pub open spec fn opt_view(s: Option<String>) -> Option<Seq<char>> {
    match s {
        Some(t) => Some(t@),
        None => None,
    }
}

/// The view of a list of ports.
pub open spec fn ports_view(ports: Seq<Port>) -> Seq<PortView> {
    ports.map_values(|p: Port| p@)
}

/// What a participant description is, as plain values.
pub struct InfoView {
    pub id: Seq<char>,
    pub role: Seq<char>,
    pub component: Seq<char>,
    pub label: Option<Seq<char>>,
    pub icon: Option<Seq<char>>,
    pub inports: Seq<PortView>,
    pub outports: Seq<PortView>,
}

/// The description of a participant, as announced to the MsgFlo runtime.
#[derive(Debug, PartialEq, Eq)]
pub struct Info {
    /// unique name
    pub id: String,
    /// role the participant has
    pub role: String,
    /// component the participant is an instance of
    pub component: String,
    /// (optional) short human-readable description
    pub label: Option<String>,
    /// (optional)
    pub icon: Option<String>,
    pub inports: Vec<Port>,
    pub outports: Vec<Port>,
}

impl View for Info {
    type V = InfoView;

    open spec fn view(&self) -> InfoView {
        InfoView {
            id: self.id@,
            role: self.role@,
            component: self.component@,
            label: opt_view(self.label),
            icon: opt_view(self.icon),
            inports: ports_view(self.inports@),
            outports: ports_view(self.outports@),
        }
    }
}

/// The description with only a component: every string empty, no label,
/// no icon and no ports.
pub open spec fn empty_info(component: Seq<char>) -> InfoView {
    InfoView {
        id: Seq::empty(),
        role: Seq::empty(),
        component: component,
        label: None,
        icon: None,
        inports: Seq::empty(),
        outports: Seq::empty(),
    }
}

fn clone_opt_string(s: &Option<String>) -> (res: Option<String>)
    ensures
        res == *s,
{
    match s {
        Some(t) => Some(t.clone()),
        None => None,
    }
}

fn clone_ports(ports: &Vec<Port>) -> (res: Vec<Port>)
    ensures
        res@ == ports@,
{
    let mut res: Vec<Port> = Vec::new();
    let mut i: usize = 0;
    while i < ports.len()
        invariant
            i <= ports.len(),
            res@ == ports@.subrange(0, i as int),
        decreases ports.len() - i,
    {
        res.push(ports[i].clone());
        i = i + 1;
    }
    res
}

impl Clone for Info {
    fn clone(&self) -> (res: Self)
        ensures
            res@ == self@,
    {
        Info {
            id: self.id.clone(),
            role: self.role.clone(),
            component: self.component.clone(),
            label: clone_opt_string(&self.label),
            icon: clone_opt_string(&self.icon),
            inports: clone_ports(&self.inports),
            outports: clone_ports(&self.outports),
        }
    }
}

impl Default for Info {
    fn default() -> (res: Self)
        ensures
            res@ == empty_info(Seq::empty()),
    {
        let res = Info {
            id: String::new(),
            role: String::new(),
            component: String::new(),
            label: None,
            icon: None,
            inports: Vec::new(),
            outports: Vec::new(),
        };
        assert(ports_view(res.inports@) =~= Seq::empty());
        assert(ports_view(res.outports@) =~= Seq::empty());
        res
    }
}


/// A port that is not bound to a queue yet.
pub open spec fn unbound_port(id: Seq<char>) -> PortView {
    PortView { id: id, queue: Seq::empty() }
}

impl InfoView {
    pub open spec fn with_label(self, label: Seq<char>) -> InfoView {
        InfoView { label: Some(label), ..self }
    }

    pub open spec fn with_role(self, role: Seq<char>) -> InfoView {
        InfoView { role: role, ..self }
    }

    pub open spec fn with_inport(self, id: Seq<char>) -> InfoView {
        InfoView { inports: self.inports.push(unbound_port(id)), ..self }
    }

    pub open spec fn with_outport(self, id: Seq<char>) -> InfoView {
        InfoView { outports: self.outports.push(unbound_port(id)), ..self }
    }
}

/// Builds an [`Info`] step by step.
pub struct InfoBuilder {
    info: Info,
}

impl View for InfoBuilder {
    type V = InfoView;

    closed spec fn view(&self) -> InfoView {
        self.info@
    }
}

impl InfoBuilder {
    /// A builder for a participant of the given component, with nothing else set.
    pub fn new(component: &str) -> (res: InfoBuilder)
        ensures
            res@ == empty_info(component@),
    {
        let mut info = Info::default();
        info.component = component.to_owned();
        InfoBuilder { info }
    }

    /// Sets the label.
    pub fn label(&mut self, label: &str) -> (res: &mut InfoBuilder)
        ensures
            res@ == old(self)@.with_label(label@),
            *final(self) == *final(res),
    {
        self.info.label = Some(label.to_owned());
        self
    }

    /// Sets the role.
    pub fn role(&mut self, role: &str) -> (res: &mut InfoBuilder)
        ensures
            res@ == old(self)@.with_role(role@),
            *final(self) == *final(res),
    {
        self.info.role = role.to_owned();
        self
    }

    /// Adds an inport with the given name and no queue.
    pub fn inport(&mut self, id: &str) -> (res: &mut InfoBuilder)
        ensures
            res@ == old(self)@.with_inport(id@),
            *final(self) == *final(res),
    {
        let port = Port { id: id.to_owned(), queue: String::new() };
        self.info.inports.push(port);
        assert(ports_view(self.info.inports@) =~= ports_view(old(self).info.inports@).push(
            unbound_port(id@),
        ));
        self
    }

    /// Adds an outport with the given name and no queue.
    pub fn outport(&mut self, id: &str) -> (res: &mut InfoBuilder)
        ensures
            res@ == old(self)@.with_outport(id@),
            *final(self) == *final(res),
    {
        let port = Port { id: id.to_owned(), queue: String::new() };
        self.info.outports.push(port);
        assert(ports_view(self.info.outports@) =~= ports_view(old(self).info.outports@).push(
            unbound_port(id@),
        ));
        self
    }

    /// The description built so far.
    pub fn build(&self) -> (res: Info)
        ensures
            res@ == self@,
    {
        self.info.clone()
    }
}


/// A participant: its description and the function that turns each
/// message on its inport into a message on its outport (`Ok`) or refuses
/// it (`Err`).
pub struct Participant<F> {
    pub info: Info,
    pub process: F,
}

/// What each builder step does, field by field: a new builder holds only
/// the component; a label or role replaces that field alone; a port is
/// appended, last, with the given name and an empty queue, and nothing else
/// changes.
pub proof fn lemma_builder_steps(info: InfoView, component: Seq<char>, text: Seq<char>, id: Seq<char>)
    ensures
        empty_info(component) == (InfoView {
            id: Seq::empty(),
            role: Seq::empty(),
            component: component,
            label: None,
            icon: None,
            inports: Seq::empty(),
            outports: Seq::empty(),
        }),
        info.with_label(text) == (InfoView { label: Some(text), ..info }),
        info.with_role(text) == (InfoView { role: text, ..info }),
        info.with_inport(id).inports.len() == info.inports.len() + 1,
        info.with_inport(id).inports.last() == (PortView { id: id, queue: Seq::empty() }),
        info.with_inport(id).inports.drop_last() == info.inports,
        info.with_inport(id) == (InfoView { inports: info.with_inport(id).inports, ..info }),
        info.with_outport(id).outports.len() == info.outports.len() + 1,
        info.with_outport(id).outports.last() == (PortView { id: id, queue: Seq::empty() }),
        info.with_outport(id).outports.drop_last() == info.outports,
        info.with_outport(id) == (InfoView { outports: info.with_outport(id).outports, ..info }),
{
    assert(info.with_inport(id).inports.drop_last() =~= info.inports);
    assert(info.with_outport(id).outports.drop_last() =~= info.outports);
}

} // verus!
