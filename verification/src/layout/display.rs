//! The printed form of definitions, members and layouts.

use vstd::prelude::*;
use vstd::string::StringExecFns;
use crate::layout::definition::{
    DefinitionModel, MemberModel, PointAttributeDefinition, PointAttributeMember,
};
use crate::layout::model::LayoutModel;
use crate::layout::point_layout::PointLayout;

verus! {

/// The character of a decimal digit.
pub open spec fn digit(d: nat) -> char {
    if d == 0 {
        '0'
    } else if d == 1 {
        '1'
    } else if d == 2 {
        '2'
    } else if d == 3 {
        '3'
    } else if d == 4 {
        '4'
    } else if d == 5 {
        '5'
    } else if d == 6 {
        '6'
    } else if d == 7 {
        '7'
    } else if d == 8 {
        '8'
    } else {
        '9'
    }
}

/// The decimal numeral of `n`, without leading zeros.
pub open spec fn decimal(n: nat) -> Seq<char>
    decreases n,
{
    if n < 10 {
        seq![digit(n)]
    } else {
        decimal(n / 10).push(digit(n % 10))
    }
}

/// The printed form of a definition: `[name;type]`.
pub open spec fn definition_text(definition: DefinitionModel) -> Seq<char> {
    seq!['['] + definition.name + seq![';'] + definition.datatype.spec_display_name() + seq![']']
}

/// The printed form of a member: `[name;type @ offset n]`.
pub open spec fn member_text(member: MemberModel) -> Seq<char> {
    seq!['['] + member.name + seq![';'] + member.datatype.spec_display_name() + " @ offset "@
        + decimal(member.offset) + seq![']']
}

/// The lines of the members, each behind a tab and ended by a line feed.
pub open spec fn member_lines(members: Seq<MemberModel>) -> Seq<char>
    decreases members.len(),
{
    if members.len() == 0 {
        Seq::empty()
    } else {
        member_lines(members.drop_last()) + seq!['\t'] + member_text(members.last()) + seq!['\n']
    }
}

/// The printed form of a layout: a headline, one line for each member in
/// insertion order, and a closing line.
pub open spec fn layout_text(layout: LayoutModel) -> Seq<char> {
    "PointLayout {\n"@ + member_lines(layout.members) + "}\n"@
}

/// The text of one decimal digit.
fn digit_text(d: u64) -> (text: &'static str)
    requires
        d < 10,
    ensures
        text@ == seq![digit(d as nat)],
{
    proof {
        reveal_strlit("0");
        reveal_strlit("1");
        reveal_strlit("2");
        reveal_strlit("3");
        reveal_strlit("4");
        reveal_strlit("5");
        reveal_strlit("6");
        reveal_strlit("7");
        reveal_strlit("8");
        reveal_strlit("9");
    }
    let text = if d == 0 {
        "0"
    } else if d == 1 {
        "1"
    } else if d == 2 {
        "2"
    } else if d == 3 {
        "3"
    } else if d == 4 {
        "4"
    } else if d == 5 {
        "5"
    } else if d == 6 {
        "6"
    } else if d == 7 {
        "7"
    } else if d == 8 {
        "8"
    } else {
        "9"
    };
    text
}

/// Appends the decimal numeral of `n` to `text`.
fn append_decimal(text: &mut String, n: u64)
    ensures
        final(text)@ == old(text)@ + decimal(n as nat),
    decreases n,
{
    if n >= 10 {
        append_decimal(text, n / 10);
    }
    text.append(digit_text(n % 10));
}

impl PointAttributeDefinition {
    /// Returns the printed form of this definition, such as
    /// `[Intensity;U16]`.
    pub fn to_string(&self) -> (text: String)
        ensures
            text@ == definition_text(self@),
    {
        proof {
            reveal_strlit("[");
            reveal_strlit(";");
            reveal_strlit("]");
        }
        let mut text = String::from_str("[");
        text.append(self.name());
        text.append(";");
        text.append(self.datatype().display_name());
        text.append("]");
        text
    }
}

impl PointAttributeMember {
    /// Returns the printed form of this member, such as
    /// `[Intensity;U16 @ offset 24]`.
    pub fn to_string(&self) -> (text: String)
        ensures
            text@ == member_text(self@),
    {
        proof {
            reveal_strlit("[");
            reveal_strlit(";");
            reveal_strlit("]");
        }
        let mut text = String::from_str("[");
        text.append(self.name());
        text.append(";");
        text.append(self.datatype().display_name());
        text.append(" @ offset ");
        append_decimal(&mut text, self.offset());
        text.append("]");
        text
    }
}

impl PointLayout {
    /// Returns the printed form of this layout: the members in insertion
    /// order, one on each line, between a headline and a closing brace.
    pub fn to_string(&self) -> (text: String)
        ensures
            text@ == layout_text(self@),
    {
        proof {
            reveal_strlit("\t");
            reveal_strlit("\n");
        }
        let mut text = String::from_str("PointLayout {\n");
        let members = self.attributes();
        let ghost models = self@.members;
        let n = members.len();
        let mut i: usize = 0;
        while i < n
            invariant
                n == members.len(),
                i <= n,
                models == members@.map_values(|m: PointAttributeMember| m@),
                "\t"@ == seq!['\t'],
                "\n"@ == seq!['\n'],
                text@ == "PointLayout {\n"@ + member_lines(models.take(i as int)),
            decreases n - i,
        {
            text.append("\t");
            let line = members[i].to_string();
            text.append(line.as_str());
            text.append("\n");
            proof {
                assert(models.take(i + 1).drop_last() =~= models.take(i as int));
            }
            i += 1;
        }
        assert(models.take(n as int) =~= models);
        text.append("}\n");
        text
    }
}

} // verus!
