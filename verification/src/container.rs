//! Finding a container in a listing, and what its reported state says.

use vstd::prelude::*;

verus! {

/// What counts of a container in the daemon's listing.
#[derive(Clone, Debug)]
pub struct ContainerSummary {
    pub names: Option<Vec<String>>,
    pub state: Option<String>,
}

/// A filter of a listing: only containers whose `key` is one of `values`.
#[derive(Clone, Debug)]
pub struct ListFilter {
    pub key: String,
    pub values: Vec<String>,
}

/// Which containers a listing is to hold, and what of them.
#[derive(Clone, Debug)]
pub struct ListRequest {
    /// Stopped containers too.
    pub all: bool,
    /// At most this many containers.
    pub limit: Option<isize>,
    /// The containers' sizes too.
    pub size: bool,
    pub filters: Vec<ListFilter>,
}

/// The name that the daemon lists a container under: its own name after a
/// slash.
pub open spec fn listed_name(container: Seq<char>) -> Seq<char> {
    "/"@ + container
}

/// A container in this state is up, or on its way to be.
pub open spec fn is_running_state(state: Seq<char>) -> bool {
    state == "created"@ || state == "running"@ || state == "restarting"@
}

impl ContainerSummary {
    /// One of the listed names is exactly that of `container`.
    pub open spec fn is_named(self, container: Seq<char>) -> bool {
        self.names matches Some(names) && exists|i: int|
            0 <= i < names@.len() && #[trigger] names@[i]@ == listed_name(container)
    }
}

/// `i` is the first entry of the listing with the name of `container`.
pub open spec fn is_first_named(
    containers: Seq<ContainerSummary>,
    container: Seq<char>,
    i: int,
) -> bool {
    &&& 0 <= i < containers.len()
    &&& containers[i].is_named(container)
    &&& forall|j: int| 0 <= j < i ==> !containers[j].is_named(container)
}

/// What a listing says of `container`: nothing if no entry has its name or the
/// first that has reports no state, else whether the state is a running one.
pub open spec fn running_status(
    containers: Seq<ContainerSummary>,
    container: Seq<char>,
) -> Option<bool> {
    if exists|i: int| is_first_named(containers, container, i) {
        let i = choose|i: int| is_first_named(containers, container, i);
        match containers[i].state {
            Some(state) => Some(is_running_state(state@)),
            None => None,
        }
    } else {
        None
    }
}

/// Asks for the containers whose name holds that of `container`, stopped ones
/// too.
pub fn list_request(container: &str) -> (request: ListRequest)
    ensures
        request.all,
        request.limit is None,
        !request.size,
        request.filters@.len() == 1,
        request.filters@[0].key@ == "name"@,
        request.filters@[0].values@.len() == 1,
        request.filters@[0].values@[0]@ == container@,
{
    let mut values: Vec<String> = Vec::new();
    values.push(container.to_string());
    let mut filters: Vec<ListFilter> = Vec::new();
    filters.push(ListFilter { key: "name".to_string(), values });
    ListRequest { all: true, limit: None, size: false, filters }
}

fn has_name(names: &Vec<String>, wanted: &String) -> (found: bool)
    ensures
        found <==> exists|i: int| 0 <= i < names@.len() && #[trigger] names@[i]@ == wanted@,
{
    let mut i: usize = 0;
    while i < names.len()
        invariant
            i <= names@.len(),
            forall|j: int| 0 <= j < i ==> #[trigger] names@[j]@ != wanted@,
        decreases names@.len() - i,
    {
        if names[i] == *wanted {
            return true;
        }
        i = i + 1;
    }
    false
}

fn is_running(state: &String) -> (running: bool)
    ensures
        running == is_running_state(state@),
{
    *state == "created".to_string() || *state == "running".to_string() || *state
        == "restarting".to_string()
}

/// Whether `container` is running, as far as a listing tells: by the state of
/// the first entry with exactly its name.
pub fn check_if_running(containers: &[ContainerSummary], container: &str) -> (status: Option<bool>)
    ensures
        status == running_status(containers@, container@),
{
    let wanted: String = "/".to_string().concat(container);
    let mut i: usize = 0;
    while i < containers.len()
        invariant
            i <= containers@.len(),
            wanted@ == listed_name(container@),
            forall|j: int| 0 <= j < i ==> !containers@[j].is_named(container@),
        decreases containers@.len() - i,
    {
        let found: bool = match &containers[i].names {
            Some(names) => has_name(names, &wanted),
            None => false,
        };
        if found {
            proof {
                assert(is_first_named(containers@, container@, i as int));
                lemma_first_named_is_unique(containers@, container@);
            }
            return match &containers[i].state {
                Some(state) => Some(is_running(state)),
                None => None,
            };
        }
        i = i + 1;
    }
    None
}

/// The listed name of a container is a slash and then every character of the
/// container's name, so different containers are listed under different names.
pub proof fn law_listed_name(container: Seq<char>, other: Seq<char>)
    ensures
        listed_name(container).len() == container.len() + 1,
        listed_name(container)[0] == '/',
        listed_name(container).skip(1) == container,
        listed_name(container) == listed_name(other) ==> container == other,
{
    reveal_strlit("/");
    assert(listed_name(container).skip(1) =~= container);
    assert(listed_name(other).skip(1) =~= other);
}

/// If an entry has among its names the slash followed by the container's whole
/// name, and no entry before it has, that entry's state decides: nothing is
/// known without one, and with one the container is running exactly if it is
/// created, running or restarting.
pub proof fn law_named_entry_is_found(
    containers: Seq<ContainerSummary>,
    container: Seq<char>,
    i: int,
    k: int,
)
    requires
        0 <= i < containers.len(),
        containers[i].names is Some,
        0 <= k < containers[i].names->0@.len(),
        containers[i].names->0@[k]@ == seq!['/'] + container,
        forall|a: int, b: int|
            0 <= a < i && containers[a].names is Some && 0 <= b < containers[a].names->0@.len()
                ==> (#[trigger] containers[a].names->0@[b])@ != seq!['/'] + container,
    ensures
        containers[i].state is None ==> running_status(containers, container) is None,
        containers[i].state matches Some(state) ==> running_status(containers, container) == Some(
            state@ == "created"@ || state@ == "running"@ || state@ == "restarting"@,
        ),
{
    reveal_strlit("/");
    assert(listed_name(container) =~= seq!['/'] + container);
    assert(containers[i].names->0@[k]@ == listed_name(container));
    assert forall|j: int| 0 <= j < i implies !containers[j].is_named(container) by {
        if containers[j].is_named(container) {
            let b = choose|b: int|
                0 <= b < containers[j].names->0@.len() && #[trigger] containers[j].names->0@[b]@
                    == listed_name(container);
            assert(containers[j].names->0@[b]@ == seq!['/'] + container);
        }
    }
    assert(is_first_named(containers, container, i));
    lemma_first_named_is_unique(containers, container);
}

/// Of a container whose name, after a slash, is not among the names of any
/// entry nothing is known.
pub proof fn law_unlisted_container_is_unknown(
    containers: Seq<ContainerSummary>,
    container: Seq<char>,
)
    requires
        forall|a: int, b: int|
            0 <= a < containers.len() && containers[a].names is Some && 0 <= b
                < containers[a].names->0@.len() ==> (#[trigger] containers[a].names->0@[b])@
                != seq!['/'] + container,
    ensures
        running_status(containers, container) is None,
{
    reveal_strlit("/");
    assert(listed_name(container) =~= seq!['/'] + container);
    if exists|i: int| is_first_named(containers, container, i) {
        let i = choose|i: int| is_first_named(containers, container, i);
        let b = choose|b: int|
            0 <= b < containers[i].names->0@.len() && #[trigger] containers[i].names->0@[b]@
                == listed_name(container);
        assert(containers[i].names->0@[b]@ == seq!['/'] + container);
    }
}

/// Entries with other names do not matter: a listing says of a container what it
/// says without the entries before the first that has the container's name.
pub proof fn law_other_names_do_not_matter(
    others: Seq<ContainerSummary>,
    containers: Seq<ContainerSummary>,
    container: Seq<char>,
)
    requires
        forall|i: int| 0 <= i < others.len() ==> !others[i].is_named(container),
    ensures
        running_status(others + containers, container) == running_status(containers, container),
{
    let all = others + containers;
    let n = others.len() as int;
    lemma_first_named_is_unique(all, container);
    lemma_first_named_is_unique(containers, container);
    assert forall|i: int| is_first_named(containers, container, i) implies is_first_named(
        all,
        container,
        i + n,
    ) by {
        assert forall|j: int| 0 <= j < i + n implies !all[j].is_named(container) by {
            if j >= n {
                assert(all[j] == containers[j - n]);
            }
        }
    }
    assert forall|i: int| is_first_named(all, container, i) implies is_first_named(
        containers,
        container,
        i - n,
    ) by {
        assert forall|j: int| 0 <= j < i - n implies !containers[j].is_named(container) by {
            assert(containers[j] == all[j + n]);
        }
    }
    if exists|i: int| is_first_named(containers, container, i) {
        let i = choose|i: int| is_first_named(containers, container, i);
        assert(is_first_named(all, container, i + n));
    }
}

/// The first entry with a container's name decides, even one without a state:
/// a listing that holds it says the same whatever follows.
pub proof fn law_first_named_decides(
    containers: Seq<ContainerSummary>,
    rest: Seq<ContainerSummary>,
    container: Seq<char>,
    i: int,
)
    requires
        0 <= i < containers.len(),
        containers[i].is_named(container),
    ensures
        running_status(containers + rest, container) == running_status(containers, container),
    decreases i,
{
    let all = containers + rest;
    if exists|j: int| 0 <= j < i && containers[j].is_named(container) {
        let j = choose|j: int| 0 <= j < i && containers[j].is_named(container);
        law_first_named_decides(containers, rest, container, j);
    } else {
        assert(is_first_named(containers, container, i));
        assert(is_first_named(all, container, i)) by {
            assert forall|j: int| 0 <= j < i implies !all[j].is_named(container) by {
                assert(all[j] == containers[j]);
            }
        }
        lemma_first_named_is_unique(all, container);
        lemma_first_named_is_unique(containers, container);
    }
}

/// At most one entry of a listing is the first with a given name.
proof fn lemma_first_named_is_unique(containers: Seq<ContainerSummary>, container: Seq<char>)
    ensures
        forall|i: int, j: int|
            is_first_named(containers, container, i) && is_first_named(containers, container, j)
                ==> i == j,
{
}

} // verus!
