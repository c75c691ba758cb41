//! A saved SSH connection preset, the command line it launches, and the
//! list of saved presets with its save, delete and look-up operations.

use vstd::prelude::*;

use crate::text::{decimal_text, u16_to_text};

verus! {

/// The port that `ssh` uses when none is given.
pub const DEFAULT_SSH_PORT: u16 = 22;

/// A saved SSH connection preset.
#[derive(Clone, Debug)]
pub struct SshConnection {
    pub id: String,
    pub label: String,
    pub host: String,
    pub port: u16,
    pub user: String,
    pub identity_file: Option<String>,
}

/// The mathematical value of a [`SshConnection`]: its texts as character
/// sequences.
pub struct SshConnectionView {
    pub id: Seq<char>,
    pub label: Seq<char>,
    pub host: Seq<char>,
    pub port: u16,
    pub user: Seq<char>,
    pub identity_file: Option<Seq<char>>,
}

/// The characters of an optional text.
pub open spec fn opt_text(o: Option<String>) -> Option<Seq<char>> {
    match o {
        Some(s) => Some(s@),
        None => None,
    }
}

impl View for SshConnection {
    type V = SshConnectionView;

    open spec fn view(&self) -> SshConnectionView {
        SshConnectionView {
            id: self.id@,
            label: self.label@,
            host: self.host@,
            port: self.port,
            user: self.user@,
            identity_file: opt_text(self.identity_file),
        }
    }
}

fn same_opt_text(a: &Option<String>, b: &Option<String>) -> (r: bool)
    ensures
        r == (opt_text(*a) == opt_text(*b)),
{
    match (a, b) {
        (Some(x), Some(y)) => *x == *y,
        (None, None) => true,
        _ => false,
    }
}

impl PartialEq for SshConnection {
    fn eq(&self, other: &Self) -> (r: bool) {
        self.id == other.id && self.label == other.label && self.host == other.host && self.port
            == other.port && self.user == other.user && same_opt_text(
            &self.identity_file,
            &other.identity_file,
        )
    }
}

impl vstd::std_specs::cmp::PartialEqSpecImpl for SshConnection {
    open spec fn obeys_eq_spec() -> bool {
        true
    }

    open spec fn eq_spec(&self, other: &SshConnection) -> bool {
        self@ == other@
    }
}

/// The preset that `SshConnection::default` gives: every text empty, port 22,
/// no identity file.
pub open spec fn default_connection() -> SshConnectionView {
    SshConnectionView {
        id: Seq::empty(),
        label: Seq::empty(),
        host: Seq::empty(),
        port: 22,
        user: Seq::empty(),
        identity_file: None,
    }
}

impl Default for SshConnection {
    fn default() -> (r: Self)
        ensures
            r@ == default_connection(),
    {
        SshConnection {
            id: String::new(),
            label: String::new(),
            host: String::new(),
            port: DEFAULT_SSH_PORT,
            user: String::new(),
            identity_file: None,
        }
    }
}

/// The `ssh` command line for a preset: `ssh`, then ` -p PORT` unless the
/// port is 22, then ` -i 'FILE'` when an identity file is set, then
/// ` USER@HOST`, or ` HOST` when the user is empty.
pub open spec fn command_text(c: SshConnectionView) -> Seq<char> {
    "ssh"@ + (if c.port != 22 {
        " -p "@ + decimal_text(c.port as nat)
    } else {
        Seq::empty()
    }) + (match c.identity_file {
        Some(f) => " -i '"@ + f + "'"@,
        None => Seq::empty(),
    }) + (if c.user.len() > 0 {
        " "@ + c.user + "@"@ + c.host
    } else {
        " "@ + c.host
    })
}

/// The title of a preset in the list: its label, or its host when the label
/// is empty.
pub open spec fn list_title(c: SshConnectionView) -> Seq<char> {
    if c.label.len() == 0 {
        c.host
    } else {
        c.label
    }
}

/// The subtitle of a preset in the list: `USER@HOST:PORT`, with `root` in
/// place of an empty user.
pub open spec fn list_subtitle(c: SshConnectionView) -> Seq<char> {
    (if c.user.len() == 0 {
        "root"@
    } else {
        c.user
    }) + "@"@ + c.host + ":"@ + decimal_text(c.port as nat)
}

impl SshConnection {
    /// A copy of this preset.
    pub fn duplicate(&self) -> (r: Self)
        ensures
            r@ == self@,
    {
        SshConnection {
            id: self.id.clone(),
            label: self.label.clone(),
            host: self.host.clone(),
            port: self.port,
            user: self.user.clone(),
            identity_file: match &self.identity_file {
                Some(f) => Some(f.clone()),
                None => None,
            },
        }
    }

    /// Builds the SSH command string from this connection.
    pub fn to_command_string(&self) -> (cmd: String)
        ensures
            cmd@ == command_text(self@),
    {
        let mut cmd = String::from_str("ssh");
        if self.port != DEFAULT_SSH_PORT {
            cmd.append(" -p ");
            let port = u16_to_text(self.port);
            cmd.append(port.as_str());
        }
        if let Some(identity) = &self.identity_file {
            cmd.append(" -i '");
            cmd.append(identity.as_str());
            cmd.append("'");
        }
        if !self.user.as_str().is_empty() {
            cmd.append(" ");
            cmd.append(self.user.as_str());
            cmd.append("@");
            cmd.append(self.host.as_str());
        } else {
            cmd.append(" ");
            cmd.append(self.host.as_str());
        }
        assert(cmd@ =~= command_text(self@));
        cmd
    }

    /// The title under which the list shows this preset.
    pub fn list_title(&self) -> (t: String)
        ensures
            t@ == list_title(self@),
    {
        if self.label.as_str().is_empty() {
            self.host.clone()
        } else {
            self.label.clone()
        }
    }

    /// The subtitle under which the list shows this preset.
    pub fn list_subtitle(&self) -> (t: String)
        ensures
            t@ == list_subtitle(self@),
    {
        let mut t = if self.user.as_str().is_empty() {
            String::from_str("root")
        } else {
            self.user.clone()
        };
        t.append("@");
        t.append(self.host.as_str());
        t.append(":");
        let port = u16_to_text(self.port);
        t.append(port.as_str());
        assert(t@ =~= list_subtitle(self@));
        t
    }
}

// ---------------------------------------------------------------------------
// Laws of the command line and the list texts
// ---------------------------------------------------------------------------

/// The command line always names who logs in where: when the user is set it
/// ends with ` USER@HOST` whatever the user is, and otherwise with ` HOST`.
/// It starts with `ssh`, and neither the id nor the label of the preset
/// changes it.
pub proof fn lemma_command_names_user_and_host(c: SshConnectionView, id: Seq<char>, label: Seq<char>)
    ensures
        ({
            let cmd = command_text(c);
            let tail = if c.user.len() > 0 {
                " "@ + c.user + "@"@ + c.host
            } else {
                " "@ + c.host
            };
            &&& tail.len() <= cmd.len()
            &&& cmd.subrange(cmd.len() - tail.len(), cmd.len() as int) == tail
            &&& cmd.subrange(0, 3) == "ssh"@
            &&& command_text(SshConnectionView { id: id, label: label, ..c }) == cmd
        }),
{
    reveal_strlit("ssh");
    let head = "ssh"@ + (if c.port != 22 {
        " -p "@ + decimal_text(c.port as nat)
    } else {
        Seq::empty()
    }) + (match c.identity_file {
        Some(f) => " -i '"@ + f + "'"@,
        None => Seq::empty(),
    });
    let tail = if c.user.len() > 0 {
        " "@ + c.user + "@"@ + c.host
    } else {
        " "@ + c.host
    };
    assert(command_text(c) == head + tail);
    assert((head + tail).subrange(head.len() as int, (head + tail).len() as int) =~= tail);
    assert((head + tail).subrange(0, 3) =~= "ssh"@);
}

/// The subtitle of a preset in the list shows its host (after the user, or
/// `root`, and `@`) and does not depend on its label or id.
pub proof fn lemma_subtitle_shows_host(c: SshConnectionView, id: Seq<char>, label: Seq<char>)
    ensures
        ({
            let who = if c.user.len() == 0 {
                "root"@
            } else {
                c.user
            };
            let sub = list_subtitle(c);
            &&& sub.len() >= who.len() + 1 + c.host.len()
            &&& sub.subrange(0, who.len() as int) == who
            &&& sub.subrange(who.len() as int, who.len() + 1int) == "@"@
            &&& sub.subrange(who.len() + 1int, who.len() + 1int + c.host.len()) == c.host
            &&& list_subtitle(SshConnectionView { id: id, label: label, ..c }) == sub
        }),
{
    reveal_strlit("@");
    let who = if c.user.len() == 0 {
        "root"@
    } else {
        c.user
    };
    let rest = ":"@ + decimal_text(c.port as nat);
    let sub = list_subtitle(c);
    assert(sub == who + "@"@ + c.host + rest);
    assert(sub.subrange(0, who.len() as int) =~= who);
    assert(sub.subrange(who.len() as int, who.len() + 1int) =~= "@"@);
    assert(sub.subrange(who.len() + 1int, who.len() + 1int + c.host.len()) =~= c.host);
}

// ---------------------------------------------------------------------------
// The list of saved presets
// ---------------------------------------------------------------------------

/// The values of a list of presets.
pub open spec fn conns_view(v: Seq<SshConnection>) -> Seq<SshConnectionView> {
    v.map_values(|c: SshConnection| c@)
}

/// `xs` without the presets whose id is `id`, the others in their order.
pub open spec fn without_id(xs: Seq<SshConnectionView>, id: Seq<char>) -> Seq<SshConnectionView>
    decreases xs.len(),
{
    if xs.len() == 0 {
        xs
    } else if xs[0].id == id {
        without_id(xs.drop_first(), id)
    } else {
        seq![xs[0]] + without_id(xs.drop_first(), id)
    }
}

/// `xs` after saving `c`: the presets with `c`'s id are replaced by `c`,
/// which goes last.
pub open spec fn with_saved(xs: Seq<SshConnectionView>, c: SshConnectionView) -> Seq<
    SshConnectionView,
> {
    without_id(xs, c.id).push(c)
}

/// The first preset of `xs` whose id is `id`.
pub open spec fn find_by_id(xs: Seq<SshConnectionView>, id: Seq<char>) -> Option<SshConnectionView>
    decreases xs.len(),
{
    if xs.len() == 0 {
        None
    } else if xs[0].id == id {
        Some(xs[0])
    } else {
        find_by_id(xs.drop_first(), id)
    }
}

/// No two presets of `xs` share an id.
pub open spec fn has_unique_ids(xs: Seq<SshConnectionView>) -> bool {
    forall|i: int, j: int| 0 <= i < xs.len() && 0 <= j < xs.len() && i != j ==> xs[i].id != xs[j].id
}

/// How many presets of `xs` have the id `id`.
pub open spec fn count_id(xs: Seq<SshConnectionView>, id: Seq<char>) -> nat
    decreases xs.len(),
{
    if xs.len() == 0 {
        0
    } else {
        (if xs[0].id == id {
            1nat
        } else {
            0nat
        }) + count_id(xs.drop_first(), id)
    }
}

proof fn lemma_without_id_push(xs: Seq<SshConnectionView>, e: SshConnectionView, id: Seq<char>)
    ensures
        without_id(xs.push(e), id) == (if e.id == id {
            without_id(xs, id)
        } else {
            without_id(xs, id).push(e)
        }),
    decreases xs.len(),
{
    if xs.len() == 0 {
        assert(xs.push(e).drop_first() =~= xs);
        assert(without_id(xs, id) =~= Seq::<SshConnectionView>::empty());
        assert(without_id(xs.push(e).drop_first(), id) =~= Seq::<SshConnectionView>::empty());
        if e.id != id {
            assert(seq![e] + Seq::<SshConnectionView>::empty() =~= Seq::<SshConnectionView>::empty().push(e));
        }
    } else {
        lemma_without_id_push(xs.drop_first(), e, id);
        assert(xs.push(e).drop_first() =~= xs.drop_first().push(e));
        if xs[0].id != id {
            let w = without_id(xs.drop_first(), id);
            assert(seq![xs[0]] + w.push(e) =~= (seq![xs[0]] + w).push(e));
        }
    }
}

proof fn lemma_find_by_id_push(xs: Seq<SshConnectionView>, e: SshConnectionView, id: Seq<char>)
    ensures
        find_by_id(xs.push(e), id) == (match find_by_id(xs, id) {
            Some(c) => Some(c),
            None => if e.id == id {
                Some(e)
            } else {
                None
            },
        }),
    decreases xs.len(),
{
    if xs.len() == 0 {
        assert(xs.push(e).drop_first() =~= xs);
    } else {
        lemma_find_by_id_push(xs.drop_first(), e, id);
        assert(xs.push(e).drop_first() =~= xs.drop_first().push(e));
    }
}

proof fn lemma_without_id_has_no_id(xs: Seq<SshConnectionView>, id: Seq<char>)
    ensures
        find_by_id(without_id(xs, id), id) == None::<SshConnectionView>,
        count_id(without_id(xs, id), id) == 0,
    decreases xs.len(),
{
    if xs.len() > 0 {
        lemma_without_id_has_no_id(xs.drop_first(), id);
        if xs[0].id != id {
            let w = without_id(xs.drop_first(), id);
            assert((seq![xs[0]] + w).drop_first() =~= w);
        }
    }
}

proof fn lemma_without_id_keeps_others(xs: Seq<SshConnectionView>, id: Seq<char>, other: Seq<char>)
    requires
        other != id,
    ensures
        find_by_id(without_id(xs, id), other) == find_by_id(xs, other),
    decreases xs.len(),
{
    if xs.len() > 0 {
        lemma_without_id_keeps_others(xs.drop_first(), id, other);
        if xs[0].id != id {
            let w = without_id(xs.drop_first(), id);
            assert((seq![xs[0]] + w).drop_first() =~= w);
        }
    }
}

proof fn lemma_without_id_absent(xs: Seq<SshConnectionView>, id: Seq<char>)
    requires
        find_by_id(xs, id) == None::<SshConnectionView>,
    ensures
        without_id(xs, id) == xs,
    decreases xs.len(),
{
    if xs.len() > 0 {
        lemma_without_id_absent(xs.drop_first(), id);
        assert(seq![xs[0]] + xs.drop_first() =~= xs);
    }
}

proof fn lemma_without_id_subset(xs: Seq<SshConnectionView>, id: Seq<char>)
    ensures
        forall|k: int|
            0 <= k < without_id(xs, id).len() ==> #[trigger] xs.contains(without_id(xs, id)[k]),
    decreases xs.len(),
{
    if xs.len() > 0 {
        let rest = xs.drop_first();
        lemma_without_id_subset(rest, id);
        let w = without_id(rest, id);
        assert forall|k: int| 0 <= k < w.len() implies #[trigger] xs.contains(w[k]) by {
            assert(rest.contains(w[k]));
            let j: int = choose|j: int| 0 <= j < rest.len() && rest[j] == w[k];
            assert(xs[j + 1] == w[k]);
        }
        if xs[0].id != id {
            let r = seq![xs[0]] + w;
            assert forall|k: int| 0 <= k < r.len() implies #[trigger] xs.contains(r[k]) by {
                if k == 0 {
                    assert(xs[0] == r[0]);
                } else {
                    assert(r[k] == w[k - 1]);
                }
            }
        }
    }
}

proof fn lemma_without_id_unique(xs: Seq<SshConnectionView>, id: Seq<char>)
    requires
        has_unique_ids(xs),
    ensures
        has_unique_ids(without_id(xs, id)),
    decreases xs.len(),
{
    if xs.len() > 0 {
        let rest = xs.drop_first();
        assert(has_unique_ids(rest)) by {
            assert forall|i: int, j: int|
                0 <= i < rest.len() && 0 <= j < rest.len() && i != j implies rest[i].id
                != rest[j].id by {
                assert(rest[i] == xs[i + 1] && rest[j] == xs[j + 1]);
            }
        }
        lemma_without_id_unique(rest, id);
        lemma_without_id_subset(rest, id);
        if xs[0].id != id {
            let w = without_id(rest, id);
            let r = seq![xs[0]] + w;
            assert forall|i: int, j: int|
                0 <= i < r.len() && 0 <= j < r.len() && i != j implies r[i].id != r[j].id by {
                if i == 0 {
                    assert(rest.contains(w[j - 1]));
                    let m: int = choose|m: int| 0 <= m < rest.len() && rest[m] == w[j - 1];
                    assert(xs[m + 1] == w[j - 1]);
                } else if j == 0 {
                    assert(rest.contains(w[i - 1]));
                    let m: int = choose|m: int| 0 <= m < rest.len() && rest[m] == w[i - 1];
                    assert(xs[m + 1] == w[i - 1]);
                } else {
                    assert(r[i] == w[i - 1] && r[j] == w[j - 1]);
                }
            }
        }
    }
}

proof fn lemma_count_id_push(xs: Seq<SshConnectionView>, e: SshConnectionView, id: Seq<char>)
    ensures
        count_id(xs.push(e), id) == count_id(xs, id) + (if e.id == id {
            1nat
        } else {
            0nat
        }),
    decreases xs.len(),
{
    if xs.len() == 0 {
        assert(xs.push(e).drop_first() =~= xs);
    } else {
        lemma_count_id_push(xs.drop_first(), e, id);
        assert(xs.push(e).drop_first() =~= xs.drop_first().push(e));
    }
}

/// Saving a preset and then looking up its id gives that preset back.
pub proof fn lemma_saved_is_found(xs: Seq<SshConnectionView>, c: SshConnectionView)
    ensures
        find_by_id(with_saved(xs, c), c.id) == Some(c),
{
    lemma_without_id_has_no_id(xs, c.id);
    lemma_find_by_id_push(without_id(xs, c.id), c, c.id);
}

/// After a save, exactly one preset carries the saved id, and it is the last.
pub proof fn lemma_saved_id_occurs_once(xs: Seq<SshConnectionView>, c: SshConnectionView)
    ensures
        count_id(with_saved(xs, c), c.id) == 1,
        with_saved(xs, c).last() == c,
{
    lemma_without_id_has_no_id(xs, c.id);
    lemma_count_id_push(without_id(xs, c.id), c, c.id);
}

/// Saving a preset leaves what every other id looks up unchanged.
pub proof fn lemma_save_keeps_others(
    xs: Seq<SshConnectionView>,
    c: SshConnectionView,
    other: Seq<char>,
)
    requires
        other != c.id,
    ensures
        find_by_id(with_saved(xs, c), other) == find_by_id(xs, other),
{
    lemma_without_id_keeps_others(xs, c.id, other);
    lemma_find_by_id_push(without_id(xs, c.id), c, other);
}

/// After a delete, no preset carries the deleted id, and every other id looks
/// up what it did before.
pub proof fn lemma_delete_removes_only_id(
    xs: Seq<SshConnectionView>,
    id: Seq<char>,
    other: Seq<char>,
)
    requires
        other != id,
    ensures
        find_by_id(without_id(xs, id), id) == None::<SshConnectionView>,
        count_id(without_id(xs, id), id) == 0,
        find_by_id(without_id(xs, id), other) == find_by_id(xs, other),
{
    lemma_without_id_has_no_id(xs, id);
    lemma_without_id_keeps_others(xs, id, other);
}

/// Deleting an id a second time changes nothing.
pub proof fn lemma_delete_idempotent(xs: Seq<SshConnectionView>, id: Seq<char>)
    ensures
        without_id(without_id(xs, id), id) == without_id(xs, id),
{
    lemma_without_id_has_no_id(xs, id);
    lemma_without_id_absent(without_id(xs, id), id);
}

/// Saving and deleting keep the ids of a list distinct.
pub proof fn lemma_ids_stay_unique(xs: Seq<SshConnectionView>, c: SshConnectionView, id: Seq<char>)
    requires
        has_unique_ids(xs),
    ensures
        has_unique_ids(without_id(xs, id)),
        has_unique_ids(with_saved(xs, c)),
{
    lemma_without_id_unique(xs, id);
    lemma_without_id_unique(xs, c.id);
    lemma_without_id_subset(xs, c.id);
    let w = without_id(xs, c.id);
    lemma_without_id_has_no_id(xs, c.id);
    assert forall|k: int| 0 <= k < w.len() implies #[trigger] w[k].id != c.id by {
        lemma_find_prefix_none(w, c.id, k);
    }
    let r = w.push(c);
    assert forall|i: int, j: int|
        0 <= i < r.len() && 0 <= j < r.len() && i != j implies r[i].id != r[j].id by {
        if i < w.len() && j < w.len() {
            assert(r[i] == w[i] && r[j] == w[j]);
        } else if i < w.len() {
            assert(r[i] == w[i]);
        } else {
            assert(r[j] == w[j]);
        }
    }
}

proof fn lemma_find_prefix_none(xs: Seq<SshConnectionView>, id: Seq<char>, k: int)
    requires
        find_by_id(xs, id) == None::<SshConnectionView>,
        0 <= k < xs.len(),
    ensures
        xs[k].id != id,
    decreases xs.len(),
{
    if k > 0 {
        lemma_find_prefix_none(xs.drop_first(), id, k - 1);
    }
}

/// A look-up by id finds a preset of the list with that id, or tells that no
/// preset of the list has it.
pub proof fn lemma_find_by_id_result(xs: Seq<SshConnectionView>, id: Seq<char>)
    ensures
        match find_by_id(xs, id) {
            Some(c) => c.id == id && xs.contains(c),
            None => forall|k: int| 0 <= k < xs.len() ==> #[trigger] xs[k].id != id,
        },
    decreases xs.len(),
{
    if xs.len() > 0 {
        lemma_find_by_id_result(xs.drop_first(), id);
        match find_by_id(xs, id) {
            Some(c) => {
                if xs[0].id != id {
                    let j: int = choose|j: int| 0 <= j < xs.len() - 1 && xs.drop_first()[j] == c;
                    assert(xs[j + 1] == c);
                } else {
                    assert(xs[0] == c);
                }
            },
            None => {
                assert forall|k: int| 0 <= k < xs.len() implies #[trigger] xs[k].id != id by {
                    if k > 0 {
                        assert(xs[k] == xs.drop_first()[k - 1]);
                    }
                }
            },
        }
    }
}

/// A look-up by id gives the first preset of the list with that id.
pub proof fn lemma_find_by_id_first(xs: Seq<SshConnectionView>, id: Seq<char>, i: int)
    requires
        0 <= i < xs.len(),
        xs[i].id == id,
        forall|j: int| 0 <= j < i ==> #[trigger] xs[j].id != id,
    ensures
        find_by_id(xs, id) == Some(xs[i]),
    decreases i,
{
    if i > 0 {
        assert(xs[0].id != id);
        let rest = xs.drop_first();
        assert forall|j: int| 0 <= j < i - 1 implies #[trigger] rest[j].id != id by {
            assert(rest[j] == xs[j + 1]);
        }
        lemma_find_by_id_first(rest, id, i - 1);
    }
}

/// `conns` without the presets whose id is `id`.
pub fn connections_without(conns: &Vec<SshConnection>, id: &String) -> (r: Vec<SshConnection>)
    ensures
        conns_view(r@) == without_id(conns_view(conns@), id@),
{
    let ghost all = conns_view(conns@);
    let mut out: Vec<SshConnection> = Vec::new();
    let mut i: usize = 0;
    assert(all.take(0) =~= Seq::<SshConnectionView>::empty());
    assert(conns_view(out@) =~= Seq::<SshConnectionView>::empty());
    while i < conns.len()
        invariant
            i <= conns.len(),
            all == conns_view(conns@),
            conns_view(out@) == without_id(all.take(i as int), id@),
        decreases conns.len() - i,
    {
        let c = &conns[i];
        proof {
            assert(all.take(i + 1) =~= all.take(i as int).push(c@));
            lemma_without_id_push(all.take(i as int), c@, id@);
        }
        if c.id != *id {
            let ghost before = out@;
            out.push(c.duplicate());
            assert(conns_view(out@) =~= conns_view(before).push(c@));
        }
        i = i + 1;
    }
    assert(all.take(conns.len() as int) =~= all);
    out
}

/// `conns` after saving `conn`: the presets with its id are dropped, and it
/// is added last.
pub fn connections_with_saved(conns: &Vec<SshConnection>, conn: SshConnection) -> (r: Vec<
    SshConnection,
>)
    ensures
        conns_view(r@) == with_saved(conns_view(conns@), conn@),
{
    let mut out = connections_without(conns, &conn.id);
    let ghost before = out@;
    out.push(conn);
    assert(conns_view(out@) =~= conns_view(before).push(out@.last()@));
    out
}

/// The position of the first preset of `conns` whose id is `id`.
pub fn find_connection(conns: &Vec<SshConnection>, id: &String) -> (r: Option<usize>)
    ensures
        match r {
            Some(i) => {
                &&& i < conns.len()
                &&& conns@[i as int].id@ == id@
                &&& forall|j: int| 0 <= j < i ==> conns@[j].id@ != id@
                &&& find_by_id(conns_view(conns@), id@) == Some(conns@[i as int]@)
            },
            None => find_by_id(conns_view(conns@), id@) == None::<SshConnectionView>,
        },
{
    let ghost all = conns_view(conns@);
    let n: usize = conns.len();
    let mut i: usize = 0;
    assert(all.subrange(0, n as int) =~= all);
    while i < n
        invariant
            n == conns.len(),
            i <= n,
            all == conns_view(conns@),
            forall|j: int| 0 <= j < i ==> conns@[j].id@ != id@,
            find_by_id(all, id@) == find_by_id(all.subrange(i as int, n as int), id@),
        decreases n - i,
    {
        let ghost rest = all.subrange(i as int, n as int);
        assert(rest[0] == conns@[i as int]@);
        if conns[i].id == *id {
            return Some(i);
        }
        assert(rest.drop_first() =~= all.subrange(i + 1, n as int));
        i = i + 1;
    }
    None
}

} // verus!
