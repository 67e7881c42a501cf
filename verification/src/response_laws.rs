//! What responses, forms and custom IDs consist of, field by field.

use crate::custom_id::{custom_id, is_custom_id, CUSTOM_ID_CHARS};
use crate::interaction::{Interaction, ModalInteractionDataActionRow};
use crate::mappings::Target;
use crate::response::{
    InteractionResponseData, InteractionResponseType, ResponseRequest, TextInput,
};
use crate::state::{is_modal, one_per_row, oneshot_id, reports, responds_to};
use crate::util::{field_of, rows_filled};
use vstd::prelude::*;

verus! {

// ---- Responses ----

/// A response to an interaction goes to the application of the interaction, under its ID
/// and its whole token, and is of the kind that it is meant to be.
pub proof fn law_response_is_addressed<P, D>(
    request: ResponseRequest<D>,
    interaction: Interaction<P>,
    kind: InteractionResponseType,
)
    requires
        responds_to(request, interaction, kind),
    ensures
        request.application_id == interaction.application_id,
        request.interaction_id == interaction.id,
        request.token@ == interaction.token@,
        request.response.kind == kind,
{
}

/// A report goes to the given application, under the ID and the whole token of the target.
/// It is a message that tells the whole error, and it consists of nothing else.
pub proof fn law_report_tells_the_error(
    request: ResponseRequest<InteractionResponseData>,
    application_id: u64,
    target: Target,
    error: Seq<char>,
)
    requires
        reports(request, application_id, target, error),
    ensures
        request.application_id == application_id,
        request.interaction_id == target.id,
        request.token@ == target.token,
        request.response.kind == InteractionResponseType::ChannelMessageWithSource,
        request.response.data is Some,
        request.response.data->0.content is Some,
        request.response.data->0.content->0@ == "Internal error! "@ + error,
        request.response.data->0.components is None,
        request.response.data->0.custom_id is None,
        request.response.data->0.title is None,
{
}

/// Two reports that read the same are about the same error.
pub proof fn law_reports_tell_errors_apart(
    first: ResponseRequest<InteractionResponseData>,
    second: ResponseRequest<InteractionResponseData>,
    application_id: u64,
    target: Target,
    first_error: Seq<char>,
    second_error: Seq<char>,
)
    requires
        reports(first, application_id, target, first_error),
        reports(second, application_id, target, second_error),
        first.response.data->0.content->0@ == second.response.data->0.content->0@,
    ensures
        first_error == second_error,
{
    let n = "Internal error! "@.len() as int;
    assert(first_error =~= ("Internal error! "@ + first_error).skip(n));
    assert(second_error =~= ("Internal error! "@ + second_error).skip(n));
}

// ---- Forms that are shown ----

/// A single-use form has one row, and that row holds all the fields, in order, however many
/// they are. The form has the given title and the given custom ID, and nothing else.
pub proof fn law_single_use_form_shows_every_field(
    data: InteractionResponseData,
    title: Seq<char>,
    shown_id: Seq<char>,
    fields: Seq<TextInput>,
)
    requires
        is_modal(data, title, shown_id, seq![fields]),
    ensures
        data.components is Some,
        data.components->0@.len() == 1,
        data.components->0@[0].components@.len() == fields.len(),
        data.components->0@[0].components@ == fields,
        data.title is Some,
        data.title->0@ == title,
        data.custom_id is Some,
        data.custom_id->0@ == shown_id,
        data.content is None,
{
    assert(seq![fields][0] == fields);
}

/// A form whose fields stand in rows of their own has as many rows as there are fields, and
/// row `i` holds field `i` and nothing else. The form has the given title and the given
/// custom ID, and nothing else.
pub proof fn law_permanent_form_shows_every_field(
    data: InteractionResponseData,
    title: Seq<char>,
    shown_id: Seq<char>,
    fields: Seq<TextInput>,
)
    requires
        is_modal(data, title, shown_id, one_per_row(fields)),
    ensures
        data.components is Some,
        data.components->0@.len() == fields.len(),
        forall|i: int|
            0 <= i < fields.len() ==> (#[trigger] data.components->0@[i]).components@.len() == 1
                && data.components->0@[i].components@[0] == fields[i],
        data.title is Some,
        data.title->0@ == title,
        data.custom_id is Some,
        data.custom_id->0@ == shown_id,
        data.content is None,
{
    let rows = one_per_row(fields);
    assert(rows.len() == fields.len());
    assert forall|i: int| 0 <= i < fields.len() implies (
    #[trigger] data.components->0@[i]).components@.len() == 1
        && data.components->0@[i].components@[0] == fields[i] by {
        assert(rows[i] == seq![fields[i]]);
    }
}

/// Rows of one field each: as many as there are fields, each field in its own, so that the
/// rows one after the other give the fields back.
pub proof fn law_each_field_has_its_row(fields: Seq<TextInput>)
    ensures
        one_per_row(fields).len() == fields.len(),
        forall|i: int|
            0 <= i < fields.len() ==> #[trigger] one_per_row(fields)[i] == seq![fields[i]],
        one_per_row(fields).flatten() == fields,
    decreases fields.len(),
{
    let rows = one_per_row(fields);
    if fields.len() == 0 {
        assert(rows.flatten() =~= fields);
    } else {
        law_each_field_has_its_row(fields.drop_first());
        assert(rows.drop_first() =~= one_per_row(fields.drop_first()));
        assert(rows.first() =~= seq![fields[0]]);
        assert(rows.flatten() =~= fields);
    }
}

// ---- Forms that come back ----

/// A row of a form is about its first field: the custom ID and the value that the user
/// gave are those of that field, as they are.
pub proof fn law_row_is_about_its_first_field(row: ModalInteractionDataActionRow)
    requires
        row.components@.len() > 0,
    ensures
        field_of(row) == row.components@[0],
        field_of(row).custom_id == row.components@[0].custom_id,
        field_of(row).value == row.components@[0].value,
{
}

/// All that reading a form takes is that no row is empty.
pub proof fn law_forms_without_empty_rows_can_be_read(rows: Seq<ModalInteractionDataActionRow>)
    ensures
        (forall|i: int| 0 <= i < rows.len() ==> (#[trigger] rows[i]).components@.len() > 0)
            <==> rows_filled(rows),
{
}

// ---- Custom IDs ----

/// The custom ID that is shown for a single-use custom ID is `oneshot:` and then the whole
/// of it.
pub proof fn law_shown_id_ends_in_the_single_use_id(single_use: Seq<char>)
    ensures
        oneshot_id(single_use).len() == single_use.len() + 8,
        oneshot_id(single_use).take(8) == "oneshot:"@,
        oneshot_id(single_use).skip(8) == single_use,
{
    reveal_strlit("oneshot:");
    assert(oneshot_id(single_use).take(8) =~= "oneshot:"@);
    assert(oneshot_id(single_use).skip(8) =~= single_use);
}

/// Different single-use custom IDs are shown differently.
pub proof fn law_shown_ids_differ(first: Seq<char>, second: Seq<char>)
    requires
        oneshot_id(first) == oneshot_id(second),
    ensures
        first == second,
{
    law_shown_id_ends_in_the_single_use_id(first);
    law_shown_id_ends_in_the_single_use_id(second);
}

/// A custom ID that is put together starts with the whole context, goes on with a dash and
/// ends in the picked characters, all of them, in order.
pub proof fn law_id_is_context_dash_and_picks(ctx: Seq<char>, picked: Seq<char>)
    ensures
        custom_id(ctx, picked).len() == ctx.len() + 1 + picked.len(),
        custom_id(ctx, picked).take(ctx.len() as int) == ctx,
        custom_id(ctx, picked)[ctx.len() as int] == '-',
        custom_id(ctx, picked).skip(ctx.len() as int + 1) == picked,
{
    let id = custom_id(ctx, picked);
    assert(id.take(ctx.len() as int) =~= ctx);
    assert(id.skip(ctx.len() as int + 1) =~= picked);
}

/// A generated custom ID is the whole context, a dash and six letters or digits, no two of
/// which are the same. Every ID of that form may be generated.
pub proof fn law_generated_id_starts_with_its_context(ctx: Seq<char>, id: Seq<char>)
    ensures
        is_custom_id(ctx, id) <==> {
            &&& id.len() == ctx.len() + 7
            &&& id.take(ctx.len() as int) == ctx
            &&& id[ctx.len() as int] == '-'
            &&& forall|i: int|
                ctx.len() < i < id.len() ==> {
                    ||| 'a' <= #[trigger] id[i] <= 'z'
                    ||| 'A' <= id[i] <= 'Z'
                    ||| '0' <= id[i] <= '9'
                }
            &&& forall|i: int, j: int|
                ctx.len() < i < j < id.len() ==> #[trigger] id[i] != #[trigger] id[j]
        },
{
    let n = ctx.len() as int;
    let picked = id.skip(n + 1);
    if is_custom_id(ctx, id) {
        law_id_is_context_dash_and_picks(ctx, picked);
        assert forall|i: int| n < i < id.len() implies {
            ||| 'a' <= #[trigger] id[i] <= 'z'
            ||| 'A' <= id[i] <= 'Z'
            ||| '0' <= id[i] <= '9'
        } by {
            assert(picked[i - n - 1] == id[i]);
        }
        assert forall|i: int, j: int| n < i < j < id.len() implies #[trigger] id[i]
            != #[trigger] id[j] by {
            assert(picked[i - n - 1] == id[i]);
            assert(picked[j - n - 1] == id[j]);
        }
    }
    if id.len() == n + 7 && id.take(n) == ctx && id[n] == '-' {
        assert forall|i: int| 0 <= i < id.len() implies id[i] == custom_id(ctx, picked)[i] by {
            if i < n {
                assert(id.take(n)[i] == id[i]);
            }
        }
        assert(id =~= custom_id(ctx, picked));
        assert(picked.len() == 6);
    }
}

/// The random characters are drawn from the letters and the digits of ASCII: from all of
/// them, each at one place, and from no others.
pub proof fn law_all_letters_and_digits_are_drawn_from(c: char)
    ensures
        CUSTOM_ID_CHARS@.len() == 62,
        CUSTOM_ID_CHARS@.no_duplicates(),
        CUSTOM_ID_CHARS@.contains(c) <==> ('a' <= c <= 'z' || 'A' <= c <= 'Z' || '0' <= c <= '9'),
{
    let chars = CUSTOM_ID_CHARS@;
    assert(forall|i: int| 0 <= i < 26 ==> #[trigger] chars[i] as int == 'a' as int + i);
    assert(forall|i: int| 26 <= i < 52 ==> #[trigger] chars[i] as int == 'A' as int + i - 26);
    assert(forall|i: int| 52 <= i < 62 ==> #[trigger] chars[i] as int == '0' as int + i - 52);
    if 'a' <= c <= 'z' {
        assert(chars[c as int - 'a' as int] == c);
    } else if 'A' <= c <= 'Z' {
        assert(chars[c as int - 'A' as int + 26] == c);
    } else if '0' <= c <= '9' {
        assert(chars[c as int - '0' as int + 52] == c);
    }
}

} // verus!
