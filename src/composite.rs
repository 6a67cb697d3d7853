//! Static composition: the named fields of a node laid out in rows. Fields
//! that share a row label share a row; rows come in the order in which their
//! labels first occur, and fields keep their order within a row.
use vstd::prelude::*;
use crate::data_key::{join_data_key, join_key, key_view};
use crate::text::joined;
use crate::HtmlTemplate;

verus! {

/// The column that holds one field's markup.
pub open spec fn col_block(inner: Seq<char>) -> Seq<char> {
    "<div class=\"col\">\n"@ + inner + "\n</div>\n"@
}

/// A row holding the columns `cols`.
pub open spec fn row_block(cols: Seq<Seq<char>>) -> Seq<char> {
    "<div class=\"row\">\n"@ + joined(cols, Seq::empty()) + "</div>\n"@
}

/// The markup of `rows`, one row block after the other.
pub open spec fn rows_html(rows: Seq<(Seq<char>, Seq<Seq<char>>)>) -> Seq<char> {
    joined(rows.map_values(|r: (Seq<char>, Seq<Seq<char>>)| row_block(r.1)), Seq::empty())
}

/// The position of the row labelled `label`; `rows.len()` if there is none.
pub open spec fn label_position(rows: Seq<(Seq<char>, Seq<Seq<char>>)>, label: Seq<char>) -> nat
    decreases rows.len(),
{
    if rows.len() == 0 {
        0
    } else if rows[0].0 == label {
        0
    } else {
        1 + label_position(rows.skip(1), label)
    }
}

/// `rows` after a field with markup `col` is added under `label`: to the end
/// of the row with that label, or as a new last row where there is none.
pub open spec fn add_field(
    rows: Seq<(Seq<char>, Seq<Seq<char>>)>,
    label: Seq<char>,
    col: Seq<char>,
) -> Seq<(Seq<char>, Seq<Seq<char>>)> {
    let p = label_position(rows, label);
    if p < rows.len() {
        rows.update(p as int, (label, rows[p as int].1.push(col)))
    } else {
        rows.push((label, seq![col]))
    }
}

/// The row label of a field: the explicit one, else the field's name.
pub open spec fn row_label(row: Option<Seq<char>>, name: Seq<char>) -> Seq<char> {
    match row {
        Some(r) => r,
        None => name,
    }
}

proof fn lemma_label_position(rows: Seq<(Seq<char>, Seq<Seq<char>>)>, label: Seq<char>, i: int)
    requires
        0 <= i <= rows.len(),
        forall|k: int| 0 <= k < i ==> rows[k].0 != label,
        i == rows.len() || rows[i].0 == label,
    ensures
        label_position(rows, label) == i,
    decreases rows.len(),
{
    if rows.len() > 0 && i > 0 {
        assert forall|k: int| 0 <= k < i - 1 implies rows.skip(1)[k].0 != label by {
            assert(rows.skip(1)[k] == rows[k + 1]);
        }
        lemma_label_position(rows.skip(1), label, i - 1);
    }
}

/// Builds the markup of a node with named fields under a data key.
pub struct RowLayout {
    data_key: Option<String>,
    rows: Vec<(String, Vec<String>)>,
}

impl RowLayout {
    /// The data key of the node whose fields are laid out.
    pub closed spec fn key(&self) -> Option<Seq<char>> {
        key_view(self.data_key)
    }

    /// The rows so far: each label with the columns of its fields.
    pub closed spec fn rows(&self) -> Seq<(Seq<char>, Seq<Seq<char>>)> {
        self.rows@.map_values(
            |r: (String, Vec<String>)| (r.0@, r.1@.map_values(|s: String| s@)),
        )
    }

    pub fn new(data_key: Option<String>) -> (r: RowLayout)
        ensures
            r.key() == key_view(data_key),
            r.rows() == Seq::<(Seq<char>, Seq<Seq<char>>)>::empty(),
    {
        let r = RowLayout { data_key, rows: Vec::new() };
        assert(r.rows() =~= Seq::<(Seq<char>, Seq<Seq<char>>)>::empty());
        r
    }

    /// Adds the field `name`, holding `node`, to the row labelled `row`, or
    /// to a row of its own name where `row` is `None`. The node renders under
    /// the key of the field.
    pub fn field<T: HtmlTemplate>(&mut self, name: &str, row: Option<&str>, node: &T)
        ensures
            final(self).key() == old(self).key(),
            final(self).rows() == add_field(
                old(self).rows(),
                row_label(
                    match row {
                        Some(r) => Some(r@),
                        None => None,
                    },
                    name@,
                ),
                col_block(node.spec_template(Some(join_key(old(self).key(), name@)))),
            ),
    {
        let key = join_data_key(&self.data_key, name);
        let inner = node.template(Some(key));
        let mut col = String::from_str("<div class=\"col\">\n");
        col.append(inner.as_str());
        col.append("\n</div>\n");
        let label = match row {
            Some(r) => String::from_str(r),
            None => String::from_str(name),
        };
        let ghost rows0 = self.rows();
        let ghost colv = col@;
        let mut i: usize = 0;
        while i < self.rows.len()
            invariant
                rows0 == self.rows(),
                colv == col@,
                colv == col_block(node.spec_template(Some(join_key(old(self).key(), name@)))),
                label@ == row_label(
                    match row {
                        Some(r) => Some(r@),
                        None => None,
                    },
                    name@,
                ),
                self.data_key == old(self).data_key,
                self.rows == old(self).rows,
                i <= self.rows.len(),
                forall|k: int| 0 <= k < i ==> rows0[k].0 != label@,
            decreases self.rows.len() - i,
        {
            if self.rows[i].0 == label {
                proof {
                    lemma_label_position(rows0, label@, i as int);
                }
                let (lab, mut cols) = self.rows.remove(i);
                let ghost before = cols@;
                assert(before.map_values(|s: String| s@) == rows0[i as int].1);
                cols.push(col);
                assert(cols@ == before.push(col));
                let ghost after = cols@.map_values(|s: String| s@);
                let ghost want = before.map_values(|s: String| s@).push(colv);
                assert(after.len() == want.len());
                assert forall|k: int| 0 <= k < after.len() implies after[k] == want[k] by {
                    if k < before.len() {
                        assert(cols@[k] == before[k]);
                    } else {
                        assert(cols@[k] == col);
                    }
                }
                assert(after =~= want);
                self.rows.insert(i, (lab, cols));
                assert(self.rows() =~= rows0.update(i as int, (label@, rows0[i as int].1.push(colv))));
                return;
            }
            i = i + 1;
        }
        proof {
            lemma_label_position(rows0, label@, rows0.len() as int);
        }
        let ghost lv = label@;
        self.rows.push((label, vec![col]));
        assert(self.rows()[rows0.len() as int].1 =~= seq![colv]);
        assert(self.rows() =~= rows0.push((lv, seq![colv])));
    }

    /// The markup of the rows, in the order their labels first occurred.
    pub fn finish(&self) -> (r: String)
        ensures
            r@ == rows_html(self.rows()),
    {
        let ghost rows = self.rows();
        let ghost blocks = rows.map_values(|r: (Seq<char>, Seq<Seq<char>>)| row_block(r.1));
        let mut out = String::new();
        let mut i: usize = 0;
        while i < self.rows.len()
            invariant
                rows == self.rows(),
                blocks == rows.map_values(|r: (Seq<char>, Seq<Seq<char>>)| row_block(r.1)),
                i <= self.rows.len(),
                out@ == joined(blocks.subrange(0, i as int), Seq::empty()),
            decreases self.rows.len() - i,
        {
            let mut block = String::from_str("<div class=\"row\">\n");
            let cols = &self.rows[i].1;
            let ghost colv = cols@.map_values(|s: String| s@);
            let mut j: usize = 0;
            while j < cols.len()
                invariant
                    colv == cols@.map_values(|s: String| s@),
                    j <= cols.len(),
                    block@ == "<div class=\"row\">\n"@ + joined(colv.subrange(0, j as int), Seq::empty()),
                decreases cols.len() - j,
            {
                block.append(cols[j].as_str());
                proof {
                    let next = colv.subrange(0, j + 1);
                    assert(next.drop_last() =~= colv.subrange(0, j as int));
                    if j == 0 {
                        assert(joined(next, Seq::empty()) == next[0]);
                        assert(joined(colv.subrange(0, 0), Seq::<char>::empty()) =~= Seq::<char>::empty());
                    }
                    assert(joined(next, Seq::empty()) =~= joined(colv.subrange(0, j as int), Seq::empty()) + colv[j as int]) by {
                        if j > 0 {
                            assert(joined(next, Seq::empty()) == joined(next.drop_last(), Seq::empty()) + Seq::<char>::empty() + next.last());
                        }
                    }
                }
                j = j + 1;
            }
            block.append("</div>\n");
            assert(colv.subrange(0, cols.len() as int) =~= colv);
            assert(colv == rows[i as int].1);
            out.append(block.as_str());
            proof {
                let next = blocks.subrange(0, i + 1);
                assert(next.drop_last() =~= blocks.subrange(0, i as int));
                if i == 0 {
                    assert(joined(blocks.subrange(0, 0), Seq::<char>::empty()) =~= Seq::<char>::empty());
                    assert(out@ =~= joined(next, Seq::empty()));
                } else {
                    assert(out@ =~= joined(next, Seq::empty()));
                }
            }
            i = i + 1;
        }
        assert(blocks.subrange(0, self.rows.len() as int) =~= blocks);
        out
    }
}

} // verus!
