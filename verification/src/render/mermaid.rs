//! The diagram as text: one line for each party, then one for each link.

use crate::data::link::LinkView;
use crate::data::model::SessionView;
use crate::data::party::PartyView;
use crate::data::session::SessionInner;
use crate::text::push_char;
use vstd::prelude::*;

verus! {

/// `name` with each newline replaced by the marker `<br>`, so that a name
/// never ends the line it stands in.
pub open spec fn with_breaks(name: Seq<char>) -> Seq<char>
    decreases name.len(),
{
    if name.len() == 0 {
        Seq::empty()
    } else if name.last() == '\n' {
        with_breaks(name.drop_last()) + "<br>"@
    } else {
        with_breaks(name.drop_last()).push(name.last())
    }
}

/// The line that declares a party: its name with its newlines marked, and
/// what to show for it, which is the label, or the name again where the
/// party has no label.
pub open spec fn participant_line(party: PartyView) -> Seq<char> {
    "  participant "@ + with_breaks(party.name) + " as "@ + (match party.label {
        Some(label) => label,
        None => with_breaks(party.name),
    }) + "\n"@
}

/// The line for a link: both names with their newlines marked, and the
/// label, which is empty where the link has none.
pub open spec fn message_line(link: LinkView) -> Seq<char> {
    "  "@ + with_breaks(link.from.name) + " ->> "@ + with_breaks(link.to.name) + ": "@ + (
    match link.label {
        Some(label) => label,
        None => Seq::empty(),
    }) + "\n"@
}

/// The lines of the parties, in their order.
pub open spec fn participant_lines(parties: Seq<PartyView>) -> Seq<char>
    decreases parties.len(),
{
    if parties.len() == 0 {
        Seq::empty()
    } else {
        participant_lines(parties.drop_last()) + participant_line(parties.last())
    }
}

/// The lines of the links, in their order.
pub open spec fn message_lines(links: Seq<LinkView>) -> Seq<char>
    decreases links.len(),
{
    if links.len() == 0 {
        Seq::empty()
    } else {
        message_lines(links.drop_last()) + message_line(links.last())
    }
}

/// The whole text: the heading, the parties in id order, the links in log
/// order. Nothing is escaped but the newlines of the names: every other
/// character of a name or a label stands in the text as it is.
pub open spec fn diagram_text(session: SessionView) -> Seq<char> {
    "sequenceDiagram\n"@ + participant_lines(session.parties) + message_lines(session.links)
}

/// Appends `name` to `out` with its newlines marked.
fn push_with_breaks(out: &mut String, name: &str)
    ensures
        final(out)@ == old(out)@ + with_breaks(name@),
{
    let chars = name.chars();
    for c in it: chars
        invariant
            it.seq() == name@,
            out@ == old(out)@ + with_breaks(name@.take(it.index())),
    {
        proof {
            assert(name@.take(it.index() + 1).drop_last() =~= name@.take(it.index()));
        }
        if c == '\n' {
            out.append("<br>");
        } else {
            push_char(out, c);
        }
        assert(out@ =~= old(out)@ + with_breaks(name@.take(it.index() + 1)));
    }
    assert(name@.take(name@.len() as int) =~= name@);
}

/// A sequence diagram in a line-oriented text notation.
pub struct Document(String);

impl View for Document {
    type V = Seq<char>;

    closed spec fn view(&self) -> Seq<char> {
        self.0@
    }
}

impl Document {
    /// The diagram of a session.
    pub fn from(session: &SessionInner) -> (doc: Document)
        ensures
            doc@ == diagram_text(session@),
    {
        let mut definition = String::new();
        definition.append("sequenceDiagram\n");

        let mut i: usize = 0;
        while i < session.parties.len()
            invariant
                i <= session.parties.len(),
                definition@ == "sequenceDiagram\n"@ + participant_lines(session@.parties.take(i as int)),
            decreases session.parties.len() - i,
        {
            let party = &session.parties[i].0;
            let name = party.name.as_str();
            let ghost before = definition@;
            definition.append("  participant ");
            push_with_breaks(&mut definition, name);
            definition.append(" as ");
            match &party.label {
                Some(label) => definition.append(label.as_str()),
                None => push_with_breaks(&mut definition, name),
            }
            definition.append("\n");
            proof {
                let seen = session@.parties.take(i + 1);
                assert(seen.drop_last() =~= session@.parties.take(i as int));
                assert(seen.last() == party@);
                assert(definition@ =~= before + participant_line(party@));
                assert(definition@ =~= "sequenceDiagram\n"@ + participant_lines(seen));
            }
            i += 1;
        }
        assert(session@.parties.take(i as int) =~= session@.parties);

        let mut j: usize = 0;
        while j < session.links.len()
            invariant
                j <= session.links.len(),
                definition@ == "sequenceDiagram\n"@ + participant_lines(session@.parties)
                    + message_lines(session@.links.take(j as int)),
            decreases session.links.len() - j,
        {
            let link = &session.links[j];
            let ghost before = definition@;
            definition.append("  ");
            push_with_breaks(&mut definition, link.from.name.as_str());
            definition.append(" ->> ");
            push_with_breaks(&mut definition, link.to.name.as_str());
            definition.append(": ");
            match &*link.label {
                Some(label) => definition.append(label.as_str()),
                None => definition.append(""),
            }
            definition.append("\n");
            proof {
                reveal_strlit("");
                let seen = session@.links.take(j + 1);
                assert(seen.drop_last() =~= session@.links.take(j as int));
                assert(seen.last() == link@);
                assert(definition@ =~= before + message_line(link@));
                assert(definition@ =~= "sequenceDiagram\n"@ + participant_lines(session@.parties)
                    + message_lines(seen));
            }
            j += 1;
        }
        assert(session@.links.take(j as int) =~= session@.links);
        Document(definition)
    }

    /// The text.
    pub fn as_str(&self) -> (text: &str)
        ensures
            text@ == self@,
    {
        self.0.as_str()
    }

    /// The text, giving up the document.
    pub fn into_string(self) -> (text: String)
        ensures
            text@ == self@,
    {
        self.0
    }
}

} // verus!
