use pizza_lookup::catalog::PizzaList;
use pizza_lookup::handler::{build_error, process_event};
use pizza_lookup::params::PathParams;

fn params_of(pairs: &[(&str, &str)]) -> PathParams {
    let mut params = PathParams::new();
    for (name, value) in pairs {
        params.push(name.to_string(), value.to_string());
    }
    params
}

#[test]
fn build_error_test() {
    let result = build_error("test error message");
    assert_eq!(result.body, "{\"error\":\"test error message\"}");
    assert_eq!(result.content_type, "application/json");
    assert_eq!(result.status, 400);
}

#[test]
fn process_event_valid_pizza() {
    let pizza_list = PizzaList::new();
    let params = params_of(&[("pizza_name", "regina")]);
    let response = process_event(&params, &pizza_list);
    assert_eq!(response.status, 200);
}

#[test]
fn process_event_unknown_pizza() {
    let pizza_list = PizzaList::new();
    let params = params_of(&[("other_invalid_param", "test_value")]);
    let response = process_event(&params, &pizza_list);
    assert_eq!(response.status, 400);
    assert_eq!(response.body, "{\"error\":\"could not find the pizza_name\"}");
}

#[test]
fn handler_pizza_name_incorrect_test() {
    let pizza_list = PizzaList::new();
    let params = params_of(&[("pizza_name", "not_a_valid_pizza_name")]);
    let response = process_event(&params, &pizza_list);
    assert_eq!(response.status, 400);
    assert_eq!(response.body, "{\"error\":\"no pizza found for the given pizza_name\"}");
}

#[test]
fn lookup_regina() {
    let pizza_list = PizzaList::new();
    let params = params_of(&[("pizza_name", "regina")]);
    let response = process_event(&params, &pizza_list);
    assert_eq!(response.status, 200);
    assert_eq!(response.body, "{\"name\":\"regina\",\"price\":12}");
    assert_eq!(response.content_type, "application/json");
}

#[test]
fn lookup_veggie() {
    let pizza_list = PizzaList::new();
    let params = params_of(&[("pizza_name", "veggie")]);
    let response = process_event(&params, &pizza_list);
    assert_eq!(response.status, 200);
    assert_eq!(response.body, "{\"name\":\"veggie\",\"price\":10}");
    assert_eq!(response.content_type, "application/json");
}

#[test]
fn lookup_hawaiian() {
    let pizza_list = PizzaList::new();
    let params = params_of(&[("pizza_name", "hawaiian")]);
    let response = process_event(&params, &pizza_list);
    assert_eq!(response.status, 400);
    assert_eq!(response.body, "{\"error\":\"no pizza found for the given pizza_name\"}");
    assert_eq!(response.content_type, "application/json");
}

#[test]
fn lookup_missing_parameter() {
    let pizza_list = PizzaList::new();
    let params = params_of(&[]);
    let response = process_event(&params, &pizza_list);
    assert_eq!(response.status, 400);
    assert_eq!(response.body, "{\"error\":\"could not find the pizza_name\"}");
    assert_eq!(response.content_type, "application/json");
}

#[test]
fn lookup_every_catalog_item() {
    let pizza_list = PizzaList::new();
    for pizza in &pizza_list.pizzas {
        let params = params_of(&[("pizza_name", pizza.name.as_str())]);
        let response = process_event(&params, &pizza_list);
        let expected = format!("{{\"name\":\"{}\",\"price\":{}}}", pizza.name, pizza.price);
        assert_eq!(response.status, 200);
        assert_eq!(response.body, expected);
        assert_eq!(response.content_type, "application/json");
    }
}

#[test]
fn lookup_is_case_sensitive() {
    let pizza_list = PizzaList::new();
    let params = params_of(&[("pizza_name", "Veggie")]);
    let response = process_event(&params, &pizza_list);
    assert_eq!(response.status, 400);
    assert_eq!(response.body, "{\"error\":\"no pizza found for the given pizza_name\"}");
}

#[test]
fn repeated_requests_are_identical() {
    let pizza_list = PizzaList::new();
    let params = params_of(&[("pizza_name", "deluxe")]);
    let first = process_event(&params, &pizza_list);
    for _ in 0..5 {
        let again = process_event(&params, &pizza_list);
        assert_eq!(again.status, first.status);
        assert_eq!(again.content_type, first.content_type);
        assert_eq!(again.body.as_bytes(), first.body.as_bytes());
    }
}

#[test]
fn first_parameter_value_wins() {
    let pizza_list = PizzaList::new();
    let params = params_of(&[("pizza_name", "regina"), ("pizza_name", "veggie")]);
    let response = process_event(&params, &pizza_list);
    assert_eq!(response.status, 200);
    assert_eq!(response.body, "{\"name\":\"regina\",\"price\":12}");
}

#[test]
fn catalog_contents_in_order() {
    let pizza_list = PizzaList::new();
    assert_eq!(pizza_list.pizzas.len(), 3);
    assert_eq!(pizza_list.pizzas[0].name, "veggie");
    assert_eq!(pizza_list.pizzas[0].price, 10);
    assert_eq!(pizza_list.pizzas[1].name, "regina");
    assert_eq!(pizza_list.pizzas[1].price, 12);
    assert_eq!(pizza_list.pizzas[2].name, "deluxe");
    assert_eq!(pizza_list.pizzas[2].price, 14);
}
