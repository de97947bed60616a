use vstd::prelude::*;
use crate::cli::{CliError, CliErrorKind, LookupError};
use crate::convert::{CommonErrorData, ConstructError, FromError};
use crate::io::IoError;
use crate::error::{cast_spec, chain_len, record_of, Error, ErrorRecord};
use crate::format::{
    chain, link_block, location_lines, source_at, summary_line, trace_blocks, trace_header,
    trace_text,
};
use crate::location::{decimal, ErrorLocation};

verus! {

/// A value taken from a concrete type `T` is recovered as a `T` with the
/// same observable content, and never as a type `U` of another identity.
pub proof fn lemma_cast_exact_type<T: Error, U: Error>(e: &T)
    requires
        T::id_spec() != U::id_spec(),
    ensures
        cast_spec(record_of(e), T::id_spec()) == Some(record_of(e)),
        cast_spec(record_of(e), U::id_spec()) is None,
{
}

/// Building common data from a kind and a description gives that
/// description, no detail, and the location given.
pub proof fn lemma_construct_plain<K: Eq>(
    kind: K,
    description: &'static str,
    loc: Option<ErrorLocation>,
    d: CommonErrorData<K>,
)
    requires
        <CommonErrorData<K> as ConstructError<(K, &'static str)>>::constructs(
            (kind, description),
            loc,
            d,
        ),
    ensures
        d.kind == kind,
        d.description@ == description@,
        d.detail is None,
        d.location == loc,
{
}

/// Building a CLI error from a kind and a description gives that
/// description, no cause and no detail.
pub proof fn lemma_construct_cli(
    kind: CliErrorKind,
    description: &'static str,
    loc: Option<ErrorLocation>,
    r: CliError,
)
    requires
        <CliError as ConstructError<(CliErrorKind, &'static str)>>::constructs(
            (kind, description),
            loc,
            r,
        ),
    ensures
        r.description_spec() == description@,
        r.cause_spec() is None,
        r.detail_spec() is None,
        r.location_spec() == crate::error::location_of(loc),
        r.data.kind == kind,
{
}

/// Converting a value into its own type gives it back unchanged, whatever
/// the location.
pub proof fn lemma_identity_conversion<E>(
    err: E,
    loc1: Option<ErrorLocation>,
    loc2: Option<ErrorLocation>,
)
    ensures
        forall|r: E| #[trigger]
            <E as FromError<E>>::converts(err, loc1, r) <==> r == err,
        forall|r: E| #[trigger]
            <E as FromError<E>>::converts(err, loc1, r) <==> <E as FromError<
                E,
            >>::converts(err, loc2, r),
{
}

/// Converting a low-level input/output failure gives an error with a fixed
/// description whose cause is present and shows the failure's own
/// description, detail and identity.
pub proof fn lemma_io_conversion(err: IoError, loc: Option<ErrorLocation>, r: CliError)
    requires
        <CliError as FromError<IoError>>::converts(err, loc, r),
    ensures
        r.description_spec() == "an I/O error occurred"@,
        r.location_spec() == crate::error::location_of(loc),
        r.cause_spec() == Some(record_of(&err)),
        r.cause_spec().unwrap().description == err.description_spec(),
        r.cause_spec().unwrap().id == IoError::id_spec(),
{
}

/// Converting a failed lookup gives an error of the caller's own type whose
/// cause is that lookup error, as it was.
pub proof fn lemma_lookup_conversion(err: LookupError, loc: Option<ErrorLocation>, r: CliError)
    requires
        <CliError as FromError<LookupError>>::converts(err, loc, r),
    ensures
        r.description_spec() == "a lookup failed"@,
        r.cause_spec() == Some(record_of(&err)),
        r.cause_spec().unwrap().description == err.description_spec(),
        cast_spec(r.cause_spec().unwrap(), LookupError::id_spec()) == Some(record_of(&err)),
{
}

/// Texts joined with a blank line between each two of them.
pub open spec fn join_blank(blocks: Seq<Seq<char>>) -> Seq<char>
    decreases blocks.len(),
{
    if blocks.len() == 0 {
        Seq::empty()
    } else if blocks.len() == 1 {
        blocks[0]
    } else {
        join_blank(blocks.drop_last()) + "\n"@ + blocks.last()
    }
}

/// The rendered links of a chain, deepest cause first.
pub open spec fn rendered_links(r: ErrorRecord, sources: Seq<Option<String>>) -> Seq<Seq<char>> {
    let links = chain(r);
    let n = links.len();
    Seq::new(n, |j: int| link_block(links[n - 1 - j], source_at(sources, n - 1 - j)))
}

proof fn lemma_chain_len(r: ErrorRecord)
    ensures
        chain(r).len() == chain_len(r),
    decreases r,
{
    if let Some(c) = r.cause {
        lemma_chain_len(*c);
    }
}

proof fn lemma_blocks_join(links: Seq<ErrorRecord>, sources: Seq<Option<String>>, j: nat)
    requires
        j <= links.len(),
    ensures
        trace_blocks(links, sources, j) == join_blank(
            Seq::new(
                links.len(),
                |k: int|
                    link_block(
                        links[links.len() - 1 - k],
                        source_at(sources, links.len() - 1 - k),
                    ),
            ).take(j as int),
        ),
    decreases j,
{
    let all = Seq::new(
        links.len(),
        |k: int| link_block(links[links.len() - 1 - k], source_at(sources, links.len() - 1 - k)),
    );
    if j > 0 {
        lemma_blocks_join(links, sources, (j - 1) as nat);
        assert(all.take(j as int).drop_last() =~= all.take(j - 1));
        if j == 1 {
            assert(trace_blocks(links, sources, 0) =~= Seq::empty());
        }
    } else {
        assert(all.take(0) =~= Seq::<Seq<char>>::empty());
    }
}

/// The trace of an error whose chain has `N` links is the header followed
/// by exactly `N` link blocks, deepest cause first, separated by blank
/// lines. Each block keeps its name and description line, and its location
/// line, whether or not a source line was available for it.
pub proof fn lemma_trace_layout(r: ErrorRecord, sources: Seq<Option<String>>)
    ensures
        rendered_links(r, sources).len() == chain_len(r),
        trace_text(r, sources) == trace_header() + join_blank(rendered_links(r, sources)),
        forall|j: int|
            0 <= j < chain_len(r) ==> {
                let link = #[trigger] chain(r)[chain_len(r) - 1 - j];
                &&& rendered_links(r, sources)[j] == location_lines(
                    link,
                    source_at(sources, chain_len(r) - 1 - j),
                ) + summary_line(link)
                &&& link.location matches Some(l) ==> location_lines(link, None) == "  File \""@
                    + l.0 + "\", line "@ + decimal(l.1 as nat) + "\n"@
            },
{
    lemma_chain_len(r);
    let links = chain(r);
    lemma_blocks_join(links, sources, links.len());
    assert(rendered_links(r, sources).take(links.len() as int) =~= rendered_links(r, sources));
}

/// The deepest link of a chain comes first in its trace, and the error
/// itself last.
pub proof fn lemma_trace_order(r: ErrorRecord, sources: Seq<Option<String>>)
    ensures
        rendered_links(r, sources).last() == link_block(
            r,
            source_at(sources, 0),
        ),
        r.cause is None ==> rendered_links(r, sources) == seq![
            link_block(r, source_at(sources, 0)),
        ],
{
    lemma_chain_len(r);
    if r.cause is None {
        assert(rendered_links(r, sources) =~= seq![link_block(r, source_at(sources, 0))]);
    }
}

} // verus!
