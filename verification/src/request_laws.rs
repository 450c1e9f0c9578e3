//! What the requests to the processors ask for. The laws read the fields of the
//! request back, as the processor does.

use crate::api_call;
use crate::api_call::CredentialsModel;
use crate::api_call::Method;
use crate::api_call::PayloadModel;
use crate::decimal;
use crate::json;
use crate::json::JsonModel;
use crate::money;
use crate::paypal;
use crate::paypal::PaypalProcessor;
use crate::stripe::StripeProcessor;
use crate::webhook_laws;
use vstd::prelude::*;

verus! {

/// The value of the first field of that name.
pub open spec fn field(form: Seq<(Seq<char>, Seq<char>)>, name: Seq<char>) -> Option<Seq<char>>
    decreases form.len(),
{
    if form.len() == 0 {
        None
    } else if form[0].0 == name {
        Some(form[0].1)
    } else {
        field(form.skip(1), name)
    }
}

/// The number that a field spells, or nothing.
pub open spec fn number_in(form: Seq<(Seq<char>, Seq<char>)>, name: Seq<char>) -> int {
    match field(form, name) {
        Some(value) => match decimal::signed_value(value) {
            Some(number) => number,
            None => 0,
        },
        None => 0,
    }
}

/// The name of a field of a line item.
pub open spec fn item_field(item: int, rest: Seq<char>) -> Seq<char> {
    "line_items["@ + decimal::decimal(item) + "]"@ + rest
}

/// What the first line items of a form ask for: the unit amount of each, times
/// its quantity.
pub open spec fn line_total(form: Seq<(Seq<char>, Seq<char>)>, items: nat) -> int
    decreases items,
{
    if items == 0 {
        0
    } else {
        line_total(form, (items - 1) as nat) + number_in(
            form,
            item_field(items - 1, "[price_data][unit_amount]"@),
        ) * number_in(form, item_field(items - 1, "[quantity]"@))
    }
}

proof fn lemma_field_at(form: Seq<(Seq<char>, Seq<char>)>, name: Seq<char>, at: int)
    requires
        0 <= at < form.len(),
        form[at].0 == name,
        forall|j: int| 0 <= j < at ==> (#[trigger] form[j]).0 != name,
    ensures
        field(form, name) == Some(form[at].1),
    decreases at,
{
    if at > 0 {
        let rest = form.skip(1);
        assert(form[0].0 != name);
        assert forall|j: int| 0 <= j < at - 1 implies (#[trigger] rest[j]).0 != name by {
            assert(rest[j] == form[j + 1]);
        }
        lemma_field_at(rest, name, at - 1);
    }
}

proof fn lemma_no_field(form: Seq<(Seq<char>, Seq<char>)>, name: Seq<char>)
    requires
        forall|j: int| 0 <= j < form.len() ==> (#[trigger] form[j]).0 != name,
    ensures
        field(form, name) is None,
    decreases form.len(),
{
    if form.len() > 0 {
        let rest = form.skip(1);
        assert(form[0].0 != name);
        assert forall|j: int| 0 <= j < rest.len() implies (#[trigger] rest[j]).0 != name by {
            assert(rest[j] == form[j + 1]);
        }
        lemma_no_field(rest, name);
    }
}

proof fn lemma_first_item()
    ensures
        item_field(0, "[price_data][unit_amount]"@) == "line_items[0][price_data][unit_amount]"@,
        item_field(0, "[price_data][currency]"@) == "line_items[0][price_data][currency]"@,
        item_field(0, "[price_data][product_data][name]"@)
            == "line_items[0][price_data][product_data][name]"@,
        item_field(0, "[quantity]"@) == "line_items[0][quantity]"@,
{
    reveal_strlit("line_items[");
    reveal_strlit("]");
    reveal_strlit("[price_data][unit_amount]");
    reveal_strlit("[price_data][currency]");
    reveal_strlit("[price_data][product_data][name]");
    reveal_strlit("[quantity]");
    reveal_strlit("line_items[0][price_data][unit_amount]");
    reveal_strlit("line_items[0][price_data][currency]");
    reveal_strlit("line_items[0][price_data][product_data][name]");
    reveal_strlit("line_items[0][quantity]");
    assert(decimal::decimal(0) =~= seq!['0']);
    assert(item_field(0, "[price_data][unit_amount]"@)
        =~= "line_items[0][price_data][unit_amount]"@);
    assert(item_field(0, "[price_data][currency]"@) =~= "line_items[0][price_data][currency]"@);
    assert(item_field(0, "[price_data][product_data][name]"@)
        =~= "line_items[0][price_data][product_data][name]"@);
    assert(item_field(0, "[quantity]"@) =~= "line_items[0][quantity]"@);
}

/// Whether a name is that of a field of the first line item, or of none.
spec fn is_first_or_none(name: Seq<char>) -> bool {
    ||| name.len() < 12
    ||| name[0] != 'l'
    ||| (name.len() >= 13 && name[11] == '0' && name[12] == ']')
}

proof fn lemma_other_item(item: i64, rest: Seq<char>)
    requires
        item > 0,
    ensures
        !is_first_or_none(item_field(item as int, rest)),
{
    reveal_strlit("line_items[");
    reveal_strlit("]");
    let numeral = decimal::decimal(item as int);
    let name = item_field(item as int, rest);
    decimal::lemma_digits(item as nat);
    assert(name[0] == "line_items["@[0]);
    assert(name[11] == numeral[0]);
    if numeral.len() > 1 {
        assert(name[12] == numeral[1]);
        assert(decimal::is_digit(numeral[1]));
    } else if numeral[0] == '0' {
        assert(decimal::decimal(0) =~= seq!['0']);
        assert(numeral =~= seq!['0']);
        decimal::decimal_injective(item, 0);
    }
}

proof fn lemma_form_names(
    reference: Seq<char>,
    amount_minor: int,
    currency: Seq<char>,
    product_name: Seq<char>,
    success_url: Seq<char>,
    cancel_url: Seq<char>,
)
    ensures
        ({
            let form = StripeProcessor::checkout_form(
                reference,
                amount_minor,
                currency,
                product_name,
                success_url,
                cancel_url,
            );
            &&& forall|i: int, j: int|
                0 <= i < j < form.len() ==> (#[trigger] form[i]).0 != (#[trigger] form[j]).0
            &&& forall|i: int| 0 <= i < form.len() ==> is_first_or_none((#[trigger] form[i]).0)
        }),
{
    reveal_strlit("mode");
    reveal_strlit("client_reference_id");
    reveal_strlit("line_items[0][price_data][currency]");
    reveal_strlit("line_items[0][price_data][unit_amount]");
    reveal_strlit("line_items[0][price_data][product_data][name]");
    reveal_strlit("line_items[0][quantity]");
    reveal_strlit("success_url");
    reveal_strlit("cancel_url");
    assert("mode"@.len() == 4);
    assert("client_reference_id"@.len() == 19 && "client_reference_id"@[0] == 'c');
    assert("line_items[0][price_data][currency]"@.len() == 35);
    assert("line_items[0][price_data][unit_amount]"@.len() == 38);
    assert("line_items[0][price_data][product_data][name]"@.len() == 45);
    assert("line_items[0][quantity]"@.len() == 23);
    assert("success_url"@.len() == 11);
    assert("cancel_url"@.len() == 10);
    assert("line_items[0][price_data][currency]"@[11] == '0'
        && "line_items[0][price_data][currency]"@[12] == ']');
    assert("line_items[0][price_data][unit_amount]"@[11] == '0'
        && "line_items[0][price_data][unit_amount]"@[12] == ']');
    assert("line_items[0][price_data][product_data][name]"@[11] == '0'
        && "line_items[0][price_data][product_data][name]"@[12] == ']');
    assert("line_items[0][quantity]"@[11] == '0' && "line_items[0][quantity]"@[12] == ']');
}

/// A Stripe checkout asks for exactly the given amount, whatever number of line
/// items is counted: the unit amounts times the quantities add up to it.
pub proof fn stripe_checkout_asks_for_the_amount(
    reference: Seq<char>,
    amount_minor: i64,
    currency: Seq<char>,
    product_name: Seq<char>,
    success_url: Seq<char>,
    cancel_url: Seq<char>,
    items: i64,
)
    requires
        items > 0,
    ensures
        line_total(
            StripeProcessor::checkout_form(
                reference,
                amount_minor as int,
                currency,
                product_name,
                success_url,
                cancel_url,
            ),
            items as nat,
        ) == amount_minor,
    decreases items,
{
    let form = StripeProcessor::checkout_form(
        reference,
        amount_minor as int,
        currency,
        product_name,
        success_url,
        cancel_url,
    );
    lemma_form_names(
        reference,
        amount_minor as int,
        currency,
        product_name,
        success_url,
        cancel_url,
    );
    lemma_first_item();
    if items == 1 {
        lemma_field_at(form, item_field(0, "[price_data][unit_amount]"@), 3);
        lemma_field_at(form, item_field(0, "[quantity]"@), 5);
        decimal::signed_round_trip(amount_minor);
        reveal_strlit("1");
        assert(decimal::decimal(1) =~= "1"@);
        decimal::signed_round_trip(1);
        assert(line_total(form, 0) == 0);
        assert(line_total(form, 1) == amount_minor * 1);
    } else {
        let item = (items - 1) as i64;
        let amounts = item_field(item as int, "[price_data][unit_amount]"@);
        let quantities = item_field(item as int, "[quantity]"@);
        lemma_other_item(item, "[price_data][unit_amount]"@);
        lemma_other_item(item, "[quantity]"@);
        lemma_no_field(form, amounts);
        lemma_no_field(form, quantities);
        stripe_checkout_asks_for_the_amount(
            reference,
            amount_minor,
            currency,
            product_name,
            success_url,
            cancel_url,
            item,
        );
        assert(number_in(form, amounts) * number_in(form, quantities) == 0);
    }
}

/// A Stripe checkout is a payment in the given currency for the given product,
/// refers to the given correlation, and sends the buyer to the given addresses;
/// no field is sent twice.
pub proof fn stripe_checkout_carries_its_terms(
    reference: Seq<char>,
    amount_minor: int,
    currency: Seq<char>,
    product_name: Seq<char>,
    success_url: Seq<char>,
    cancel_url: Seq<char>,
)
    ensures
        ({
            let form = StripeProcessor::checkout_form(
                reference,
                amount_minor,
                currency,
                product_name,
                success_url,
                cancel_url,
            );
            &&& field(form, "mode"@) == Some("payment"@)
            &&& field(form, "client_reference_id"@) == Some(reference)
            &&& field(form, item_field(0, "[price_data][currency]"@)) == Some(currency)
            &&& field(form, item_field(0, "[price_data][product_data][name]"@)) == Some(
                product_name,
            )
            &&& field(form, "success_url"@) == Some(success_url)
            &&& field(form, "cancel_url"@) == Some(cancel_url)
            &&& forall|i: int, j: int|
                0 <= i < j < form.len() ==> (#[trigger] form[i]).0 != (#[trigger] form[j]).0
        }),
{
    let form = StripeProcessor::checkout_form(
        reference,
        amount_minor,
        currency,
        product_name,
        success_url,
        cancel_url,
    );
    lemma_form_names(reference, amount_minor, currency, product_name, success_url, cancel_url);
    lemma_first_item();
    lemma_field_at(form, "mode"@, 0);
    lemma_field_at(form, "client_reference_id"@, 1);
    lemma_field_at(form, item_field(0, "[price_data][currency]"@), 2);
    lemma_field_at(form, item_field(0, "[price_data][product_data][name]"@), 4);
    lemma_field_at(form, "success_url"@, 6);
    lemma_field_at(form, "cancel_url"@, 7);
}

/// The only purchase unit of an order document.
pub open spec fn sole_unit(document: JsonModel) -> Option<JsonModel> {
    match json::member(document, "purchase_units"@) {
        Some(JsonModel::List(units)) => if units.len() == 1 {
            Some(units[0])
        } else {
            None
        },
        _ => None,
    }
}

/// A PayPal order has one purchase unit, whose amount reads back as exactly the
/// given amount of the given asset, and which refers to the given correlation.
pub proof fn paypal_order_asks_for_the_amount(
    reference: Seq<char>,
    amount_minor: i64,
    asset: Seq<char>,
    description: Seq<char>,
    return_url: Seq<char>,
    cancel_url: Seq<char>,
)
    requires
        amount_minor >= 0,
    ensures
        ({
            let document = PaypalProcessor::order_document(
                reference,
                amount_minor as int,
                asset,
                description,
                return_url,
                cancel_url,
            );
            &&& sole_unit(document) matches Some(unit)
            &&& webhook_laws::says(unit, "custom_id"@, reference)
            &&& webhook_laws::says(unit, "description"@, description)
            &&& json::member(unit, "amount"@) matches Some(amount)
            &&& webhook_laws::says(amount, "currency_code"@, asset)
            &&& json::member(amount, "value"@) matches Some(JsonModel::Text(value))
            &&& money::minor_amount(asset, value) == Some(amount_minor as int)
        }),
{
    reveal_strlit("intent");
    reveal_strlit("processing_instruction");
    reveal_strlit("purchase_units");
    reveal_strlit("custom_id");
    reveal_strlit("description");
    reveal_strlit("amount");
    reveal_strlit("currency_code");
    reveal_strlit("value");
    assert("intent"@.len() == 6 && "processing_instruction"@.len() == 22
        && "purchase_units"@.len() == 14);
    assert("custom_id"@.len() == 9 && "description"@.len() == 11 && "amount"@.len() == 6);
    assert("currency_code"@.len() == 13 && "value"@.len() == 5);
    let document = PaypalProcessor::order_document(
        reference,
        amount_minor as int,
        asset,
        description,
        return_url,
        cancel_url,
    );
    let members = document->Object_0;
    webhook_laws::members_are_found_by_name(members, "purchase_units"@, 2);
    let unit = members[2].1->List_0[0]->Object_0;
    webhook_laws::members_are_found_by_name(unit, "custom_id"@, 0);
    webhook_laws::members_are_found_by_name(unit, "description"@, 1);
    webhook_laws::members_are_found_by_name(unit, "amount"@, 2);
    let amount = unit[2].1->Object_0;
    webhook_laws::members_are_found_by_name(amount, "currency_code"@, 0);
    webhook_laws::members_are_found_by_name(amount, "value"@, 1);
    money::amount_round_trip(asset, amount_minor as int);
}

/// A PayPal order is captured on approval, and sends the buyer to the given
/// addresses.
pub proof fn paypal_order_carries_its_terms(
    reference: Seq<char>,
    amount_minor: int,
    asset: Seq<char>,
    description: Seq<char>,
    return_url: Seq<char>,
    cancel_url: Seq<char>,
)
    ensures
        ({
            let document = PaypalProcessor::order_document(
                reference,
                amount_minor,
                asset,
                description,
                return_url,
                cancel_url,
            );
            &&& webhook_laws::says(document, "intent"@, "CAPTURE"@)
            &&& webhook_laws::says(
                document,
                "processing_instruction"@,
                "ORDER_COMPLETE_ON_PAYMENT_APPROVAL"@,
            )
            &&& json::member(document, "payment_source"@) matches Some(source)
            &&& json::member(source, "paypal"@) matches Some(paypal)
            &&& json::member(paypal, "experience_context"@) matches Some(context)
            &&& webhook_laws::says(context, "return_url"@, return_url)
            &&& webhook_laws::says(context, "cancel_url"@, cancel_url)
            &&& webhook_laws::says(context, "user_action"@, "PAY_NOW"@)
            &&& webhook_laws::says(context, "shipping_preference"@, "NO_SHIPPING"@)
        }),
{
    reveal_strlit("intent");
    reveal_strlit("processing_instruction");
    reveal_strlit("purchase_units");
    reveal_strlit("payment_source");
    reveal_strlit("return_url");
    reveal_strlit("cancel_url");
    reveal_strlit("user_action");
    reveal_strlit("shipping_preference");
    assert("intent"@.len() == 6 && "processing_instruction"@.len() == 22);
    assert("purchase_units"@.len() == 14 && "payment_source"@.len() == 14);
    assert("purchase_units"@[1] == 'u' && "payment_source"@[1] == 'a');
    assert("return_url"@[0] == 'r' && "cancel_url"@[0] == 'c');
    assert("user_action"@[0] == 'u' && "shipping_preference"@[0] == 's');
    let document = PaypalProcessor::order_document(
        reference,
        amount_minor,
        asset,
        description,
        return_url,
        cancel_url,
    );
    let members = document->Object_0;
    webhook_laws::members_are_found_by_name(members, "intent"@, 0);
    webhook_laws::members_are_found_by_name(members, "processing_instruction"@, 1);
    webhook_laws::members_are_found_by_name(members, "payment_source"@, 3);
    let source = members[3].1->Object_0;
    webhook_laws::members_are_found_by_name(source, "paypal"@, 0);
    let inner = source[0].1->Object_0;
    webhook_laws::members_are_found_by_name(inner, "experience_context"@, 0);
    let context = inner[0].1->Object_0;
    webhook_laws::members_are_found_by_name(context, "return_url"@, 0);
    webhook_laws::members_are_found_by_name(context, "cancel_url"@, 1);
    webhook_laws::members_are_found_by_name(context, "user_action"@, 2);
    webhook_laws::members_are_found_by_name(context, "shipping_preference"@, 3);
}

/// Reading from a processor sends nothing but its credentials, and a call that
/// writes to PayPal is named by its request id and answered in full.
pub proof fn reads_and_writes_are_told_apart(
    stripe: StripeProcessor,
    paypal: PaypalProcessor,
    token: Seq<char>,
    prefix: Seq<char>,
    id: Seq<char>,
)
    ensures
        ({
            let call = stripe.read_call(prefix, id);
            &&& call.method == Method::Get
            &&& call.url == crate::web_url::url_with_path(stripe.base(), prefix + id)
            &&& call.credentials == CredentialsModel::Bearer(stripe.secret())
            &&& call.headers.len() == 0
            &&& call.payload == PayloadModel::Empty
        }),
        ({
            let call = paypal.read_call(token, prefix, id);
            &&& call.method == Method::Get
            &&& call.url == crate::web_url::url_with_path(paypal.base(), prefix + id)
            &&& call.credentials == CredentialsModel::Bearer(token)
            &&& call.headers.len() == 0
            &&& call.payload == PayloadModel::Empty
        }),
        field(PaypalProcessor::write_headers(id), "PayPal-Request-Id"@) == Some(id),
        field(PaypalProcessor::write_headers(id), "Prefer"@) == Some("return=representation"@),
{
    reveal_strlit("PayPal-Request-Id");
    reveal_strlit("Prefer");
    assert("PayPal-Request-Id"@.len() == 17 && "Prefer"@.len() == 6);
    lemma_field_at(PaypalProcessor::write_headers(id), "PayPal-Request-Id"@, 0);
    lemma_field_at(PaypalProcessor::write_headers(id), "Prefer"@, 1);
}

/// An access token serves while more than sixty seconds are left of it.
pub proof fn tokens_are_refreshed_a_minute_early(token: Seq<char>, expires_at: int, now_unix: int)
    ensures
        paypal::usable_token(Some((token, expires_at)), now_unix) == (if expires_at - now_unix
            > 60 {
            Some(token)
        } else {
            None
        }),
        paypal::usable_token(None, now_unix) is None,
{
}

/// The successful status codes are those of the two hundreds, and of an error
/// body the first two thousand characters are kept.
pub proof fn answers_are_told_apart(status: u16, body: Seq<char>)
    ensures
        api_call::is_success(status) <==> status / 100 == 2,
        body.len() <= 2000 ==> api_call::error_excerpt(body) == body,
        body.len() > 2000 ==> {
            &&& api_call::error_excerpt(body).len() == 2000
            &&& forall|i: int|
                0 <= i < 2000 ==> #[trigger] api_call::error_excerpt(body)[i] == body[i]
        },
{
}

} // verus!
