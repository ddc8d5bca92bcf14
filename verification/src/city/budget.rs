use vstd::prelude::*;

use crate::utils::Percentage;

verus! {

/// Integer-based money storage type. Must be copy by default.
pub type MoneyValue = u32;

/// A line of the city budget.
pub struct BudgetLine {
    /// Absolute amount of money granted for this budget line.
    value: MoneyValue,
    /// Percentage of requested costs relative to the funding level.
    percentage: Percentage,
}

impl BudgetLine {
    /// Amount granted.
    pub closed spec fn amount(&self) -> MoneyValue {
        self.value
    }

    /// Funding level.
    pub closed spec fn ratio(&self) -> Percentage {
        self.percentage
    }

    /// A line with nothing granted, funded at 100%.
    pub fn new() -> (r: Self)
        ensures
            r.amount() == 0,
            r.ratio().hundredths() == 100,
    {
        BudgetLine { value: 0, percentage: Percentage::from_hundredths(100) }
    }

    pub fn get_value(&self) -> (r: MoneyValue)
        ensures
            r == self.amount(),
    {
        self.value
    }

    pub fn get_percentage(&self) -> (r: Percentage)
        ensures
            r == self.ratio(),
    {
        self.percentage
    }
}

/// The city budget: fire department, police department and roads.
pub struct CityBudget {
    fire_department: BudgetLine,
    police_department: BudgetLine,
    roads: BudgetLine,
}

impl CityBudget {
    pub closed spec fn fire(&self) -> BudgetLine {
        self.fire_department
    }

    pub closed spec fn police(&self) -> BudgetLine {
        self.police_department
    }

    pub closed spec fn road(&self) -> BudgetLine {
        self.roads
    }

    /// A budget of three empty lines, each funded at 100%.
    pub fn new() -> (r: Self)
        ensures
            r.fire().amount() == 0 && r.fire().ratio().hundredths() == 100,
            r.police().amount() == 0 && r.police().ratio().hundredths() == 100,
            r.road().amount() == 0 && r.road().ratio().hundredths() == 100,
    {
        CityBudget { fire_department: BudgetLine::new(), police_department: BudgetLine::new(), roads: BudgetLine::new() }
    }

    pub fn get_fire_department(&self) -> (r: &BudgetLine)
        ensures
            *r == self.fire(),
    {
        &self.fire_department
    }

    pub fn get_police_department(&self) -> (r: &BudgetLine)
        ensures
            *r == self.police(),
    {
        &self.police_department
    }

    pub fn get_roads(&self) -> (r: &BudgetLine)
        ensures
            *r == self.road(),
    {
        &self.roads
    }

    /// Grant the requested amounts of the roads, fire and police lines from
    /// the funds available (`tax_funds + total_funds`): all of them when the
    /// funds are above their total; otherwise the roads first, then the
    /// fire department, then the police, the first line left short getting
    /// what remains (its funding level then 1%, or 0% when nothing
    /// remains) and the lines after it nothing.
    pub fn update_budget_lines(
        &mut self,
        budget_roads: MoneyValue,
        budget_fire: MoneyValue,
        budget_police: MoneyValue,
        tax_funds: MoneyValue,
        total_funds: MoneyValue,
    )
        requires
            budget_roads + budget_fire + budget_police <= u32::MAX,
            tax_funds + total_funds <= u32::MAX,
            ({
                let total = budget_roads + budget_fire + budget_police;
                let available = tax_funds + total_funds;
                !(available <= total && total > 0 && available <= budget_roads)
            }),
        ensures
            ({
                let total = budget_roads + budget_fire + budget_police;
                let available = tax_funds + total_funds;
                let (r0, f0, p0) = (old(self).road(), old(self).fire(), old(self).police());
                let (r1, f1, p1) = (final(self).road(), final(self).fire(), final(self).police());
                if available > total {
                    &&& r1.amount() == budget_roads && r1.ratio() == r0.ratio()
                    &&& f1.amount() == budget_fire && f1.ratio() == f0.ratio()
                    &&& p1.amount() == budget_police && p1.ratio() == p0.ratio()
                } else if total == 0 {
                    *final(self) == *old(self)
                } else {
                    let a1 = available - budget_roads;
                    let a2 = a1 - budget_fire;
                    &&& r1.amount() == budget_roads && r1.ratio() == r0.ratio()
                    &&& if a1 > budget_fire {
                        &&& f1.amount() == budget_fire && f1.ratio() == f0.ratio()
                        &&& if a2 > budget_police {
                            p1.amount() == budget_police && p1.ratio() == p0.ratio()
                        } else {
                            p1.amount() == a2 && p1.ratio().hundredths() == if a2 > 0 { 1int } else { 0 }
                        }
                    } else {
                        &&& f1.amount() == a1 && f1.ratio().hundredths() == if a1 > 0 { 1int } else { 0 }
                        &&& p1.amount() == 0 && p1.ratio().hundredths() == 0
                    }
                }
            }),
    {
        let total = budget_roads + budget_fire + budget_police;
        let mut available_budget = tax_funds + total_funds;
        if available_budget > total {
            self.fire_department.value = budget_fire;
            self.police_department.value = budget_police;
            self.roads.value = budget_roads;
        } else if total > 0 {
            // not enough available budget to fund everything:
            // first spend on roads, then on fire, then on police
            // (the precondition leaves out funds not above the roads' request)
            self.roads.value = budget_roads;
            available_budget = available_budget - budget_roads;
            if available_budget > budget_fire {
                // enough budget to fully fund fire
                self.fire_department.value = budget_fire;
                available_budget = available_budget - budget_fire;
                if available_budget > budget_police {
                    // enough budget to fully fund police
                    self.police_department.value = budget_police;
                } else {
                    // fully funded roads and fire, partially funded police
                    self.police_department.value = available_budget;
                    if available_budget > 0 {
                        assert(available_budget / available_budget == 1) by (nonlinear_arith)
                            requires
                                available_budget > 0,
                        ;
                        // scale back police percentage to available cash
                        self.police_department.percentage = Percentage::from_hundredths(
                            available_budget / self.police_department.value,
                        );
                    } else {
                        // exactly nothing left
                        self.police_department.percentage = Percentage::from_hundredths(0);
                    }
                }
            } else {
                // not enough budget to fully fund fire
                self.fire_department.value = available_budget;
                // no police after funding roads and fire
                self.police_department.value = 0;
                self.police_department.percentage = Percentage::from_hundredths(0);
                if available_budget > 0 {
                    assert(available_budget / available_budget == 1) by (nonlinear_arith)
                        requires
                            available_budget > 0,
                    ;
                    // scale back fire percentage to available cash
                    self.fire_department.percentage = Percentage::from_hundredths(
                        available_budget / self.fire_department.value,
                    );
                } else {
                    // exactly nothing left
                    self.fire_department.percentage = Percentage::from_hundredths(0);
                }
            }
        }
    }
}

} // verus!
